use navactor::gene::GeneType;
use navactor::registry::GenePathMap;

#[test]
fn test_lookup_gene_type() {
    let path = "/domain/building/1/floor/3/room/5";
    let mut map = GenePathMap::new();
    map.insert(String::from("/domain"), GeneType::Gauge);
    map.insert(String::from("/domain/building"), GeneType::GaugeAndAccum);
    map.insert(String::from("/domain/building/1"), GeneType::Accum);
    let gt = map.find_gene_type(path);
    assert!(gt.is_some());
    assert_eq!(gt.unwrap(), GeneType::Accum);
}

#[test]
fn test_lookup_gene_type_short_path() {
    let path = "/domain/building";
    let mut map = GenePathMap::new();
    map.insert(String::from("/domain"), GeneType::Gauge);
    map.insert(String::from("/domain/building"), GeneType::GaugeAndAccum);
    map.insert(String::from("/domain/building/1"), GeneType::Accum);
    let gt = map.find_gene_type(path);
    assert!(gt.is_some());
    assert_eq!(gt.unwrap(), GeneType::GaugeAndAccum);
}

#[test]
fn unmapped_paths_find_nothing() {
    let mut map = GenePathMap::new();
    map.insert(String::from("/domain/building"), GeneType::Accum);
    assert_eq!(map.find_gene_type("/domain"), None);
    assert_eq!(map.find_gene_type("/other/building"), None);
    assert_eq!(map.find_gene_type(""), None);
}

#[test]
fn lookup_ignores_empty_components() {
    let mut map = GenePathMap::new();
    map.insert(String::from("/a/b"), GeneType::Accum);
    assert_eq!(map.find_gene_type("a//b/c/"), Some(GeneType::Accum));
}

#[test]
fn a_mapping_is_found_again_after_remapping() {
    let mut map = GenePathMap::new();
    map.insert(String::from("/a"), GeneType::Gauge);
    map.insert(String::from("/a/b"), GeneType::Gauge);
    map.insert(String::from("/a/b"), GeneType::Accum);
    assert_eq!(map.get(&String::from("/a/b")), Some(GeneType::Accum));
    assert_eq!(map.find_gene_type("/a/b"), Some(GeneType::Accum));
    assert_eq!(map.find_gene_type("/a/c"), Some(GeneType::Gauge));
}

#[test]
fn explain_lists_mappings_at_and_under_a_path() {
    let mut map = GenePathMap::new();
    map.insert(String::from("/domain"), GeneType::Gauge);
    map.insert(String::from("/domain/building"), GeneType::GaugeAndAccum);
    map.insert(String::from("/other"), GeneType::Accum);
    assert_eq!(
        map.explain("/domain"),
        "/domain -> [GaugeGene]\n/domain/building -> [GaugeAndAccum Gene]"
    );
    assert_eq!(map.explain("/domain/"), "/domain -> [GaugeGene]\n/domain/building -> [GaugeAndAccum Gene]");
    assert_eq!(map.explain("/nowhere"), "<not set>");
}

#[test]
fn gene_type_labels_and_codes() {
    assert_eq!(GeneType::Accum.to_display_string(), "[Accum Gene]");
    assert_eq!(GeneType::Gauge.to_display_string(), "[GaugeGene]");
    assert_eq!(GeneType::GaugeAndAccum.to_display_string(), "[GaugeAndAccum Gene]");
    assert_eq!(GeneType::Default.to_display_string(), "[Default GaugeGene]");
    assert_eq!(GeneType::GaugeAndAccum.to_code(), "GaugeAndAccum");
}

#[test]
fn the_nearest_mapped_ancestor_wins() {
    let mut map = GenePathMap::new();
    map.insert(String::from("/a/b/c"), GeneType::Accum);
    map.insert(String::from("/a"), GeneType::Gauge);
    assert_eq!(map.find_gene_type("/a/b/c/d/e"), Some(GeneType::Accum));
    assert_eq!(map.find_gene_type("/a/b"), Some(GeneType::Gauge));
    assert_eq!(map.find_gene_type("/a/bc"), Some(GeneType::Gauge));
}
