use navactor::cli::{buffer_size, gene_type_config_text, memory_only_switch, namespace_of, serve_switches, update_switches, OptionVariant};
use navactor::gene::GeneType;
use navactor::paths::{components_of, prepend_slash};

#[test]
fn namespace_is_the_first_component() {
    assert_eq!(namespace_of("/actors/one"), "actors");
    assert_eq!(namespace_of("actors/one"), "actors");
    assert_eq!(namespace_of("/./actors/one"), "actors");
    assert_eq!(namespace_of("./actors"), ".");
    assert_eq!(namespace_of("/"), "unk");
    assert_eq!(namespace_of(""), "unk");
    assert_eq!(namespace_of("//x"), "x");
}

#[test]
fn slashes_are_prepended_once() {
    assert_eq!(prepend_slash(String::from("a/b")), "/a/b");
    assert_eq!(prepend_slash(String::from("/a/b")), "/a/b");
    assert_eq!(prepend_slash(String::new()), "/");
    assert_eq!(prepend_slash(prepend_slash(String::from("x"))), "/x");
}

#[test]
fn components_skip_empty_parts() {
    assert_eq!(components_of("/a//b/"), vec![String::from("a"), String::from("b")]);
    assert!(components_of("///").is_empty());
}

#[test]
fn command_switches() {
    assert_eq!(serve_switches(None, None), (OptionVariant::On, OptionVariant::On));
    assert_eq!(serve_switches(Some(true), Some(false)), (OptionVariant::Off, OptionVariant::Off));
    assert_eq!(
        update_switches(Some(true), memory_only_switch(Some(true)), None, Some(true)),
        (OptionVariant::On, OptionVariant::On, OptionVariant::On, OptionVariant::On)
    );
    assert_eq!(
        update_switches(None, None, Some(true), None),
        (OptionVariant::Off, OptionVariant::Off, OptionVariant::Off, OptionVariant::Off)
    );
    assert_eq!(memory_only_switch(None), None);
    assert_eq!(buffer_size(None), 8);
    assert_eq!(buffer_size(Some(64)), 64);
}

#[test]
fn configured_gene_texts() {
    assert_eq!(gene_type_config_text(GeneType::Accum), "accum");
    assert_eq!(gene_type_config_text(GeneType::Gauge), "gauge");
    assert_eq!(gene_type_config_text(GeneType::GaugeAndAccum), "gauge_and_accum");
    assert_eq!(gene_type_config_text(GeneType::Default), "gauge_and_accum");
}
