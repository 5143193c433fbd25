//! The command line's decisions: which switches a command's flags turn on, the
//! namespace (and so the database) a path belongs to, and the text a configured gene
//! is sent as.  Parsing the arguments and running the commands is the application's.
use crate::gene::GeneType;
use crate::paths::{components_of, path_components, scan_components, string_views};
use vstd::prelude::*;

verus! {

/// A switch that is on or off.
#[derive(Debug, Clone, Copy, PartialEq, Eq, Structural)]
pub enum OptionVariant {
    On,
    Off,
}

/// The switches of the `serve` command: write-ahead logging is on unless disabled; duplicate
/// detection is on unless the flag is explicitly `false`.
pub fn serve_switches(disable_wal: Option<bool>, disable_duplicate_detection: Option<bool>) -> (r: (
    OptionVariant,
    OptionVariant,
))
    ensures
        r.0 == (if disable_wal == Some(true) { OptionVariant::Off } else { OptionVariant::On }),
        r.1 == (if disable_duplicate_detection == Some(false) { OptionVariant::Off } else { OptionVariant::On }),
{
    let wal = match disable_wal {
        Some(true) => OptionVariant::Off,
        _ => OptionVariant::On,
    };
    let dupes = match disable_duplicate_detection {
        Some(false) => OptionVariant::Off,
        _ => OptionVariant::On,
    };
    (wal, dupes)
}

/// The switches of the `update` command, in the order silent, memory only, write-ahead
/// logging, disabled duplicate detection.
pub fn update_switches(
    silent: Option<bool>,
    memory_only: Option<OptionVariant>,
    disable_wal: Option<bool>,
    disable_duplicate_detection: Option<bool>,
) -> (r: (OptionVariant, OptionVariant, OptionVariant, OptionVariant))
    ensures
        r.0 == (if silent == Some(true) { OptionVariant::On } else { OptionVariant::Off }),
        r.1 == (match memory_only {
            Some(m) => m,
            None => OptionVariant::Off,
        }),
        r.2 == (if disable_wal == Some(true) { OptionVariant::Off } else { OptionVariant::On }),
        r.3 == (if disable_duplicate_detection == Some(true) { OptionVariant::On } else { OptionVariant::Off }),
{
    let silent = match silent {
        Some(true) => OptionVariant::On,
        _ => OptionVariant::Off,
    };
    let memory_only = match memory_only {
        Some(m) => m,
        None => OptionVariant::Off,
    };
    let wal = match disable_wal {
        Some(true) => OptionVariant::Off,
        _ => OptionVariant::On,
    };
    let dupes = match disable_duplicate_detection {
        Some(true) => OptionVariant::On,
        _ => OptionVariant::Off,
    };
    (silent, memory_only, wal, dupes)
}

/// The switch a `--memory-only` flag gives, if it was given.
pub fn memory_only_switch(flag: Option<bool>) -> (r: Option<OptionVariant>)
    ensures
        r == (match flag {
            Some(true) => Some(OptionVariant::On),
            Some(false) => Some(OptionVariant::Off),
            None => None::<OptionVariant>,
        }),
{
    match flag {
        Some(true) => Some(OptionVariant::On),
        Some(false) => Some(OptionVariant::Off),
        None => None,
    }
}

/// The mailbox size: the one given, else 8.
pub fn buffer_size(buffer: Option<usize>) -> (r: usize)
    ensures
        r == (match buffer {
            Some(b) => b,
            None => 8usize,
        }),
{
    match buffer {
        Some(b) => b,
        None => 8,
    }
}

/// The first of `comps` that is not `.`, if there is one.
pub open spec fn first_not_dot(comps: Seq<Seq<char>>) -> Option<Seq<char>>
    decreases comps.len(),
{
    if comps.len() == 0 {
        None
    } else if comps[0] != "."@ {
        Some(comps[0])
    } else {
        first_not_dot(comps.drop_first())
    }
}

/// The namespace of a path: its first component after the root, as `std::path::Path`
/// components give it (a leading `.` of a relative path is a component; a `.` after the
/// root is not), or `unk` where there is none.
pub open spec fn namespace_of_path(p: Seq<char>) -> Seq<char> {
    if p.len() > 0 && p[0] != '/' {
        path_components(p)[0]
    } else {
        match first_not_dot(path_components(p)) {
            Some(c) => c,
            None => "unk"@,
        }
    }
}

/// The namespace of a path.
pub fn namespace_of(path: &str) -> (r: String)
    ensures
        r@ == namespace_of_path(path@),
{
    let comps = components_of(path);
    let mut first: Option<char> = None;
    for c in it: path.chars()
        invariant
            it.seq() == path@,
            it.index() == 0 ==> first is None,
            it.index() > 0 ==> first == Some(path@[0]),
    {
        if first.is_none() {
            first = Some(c);
        }
    }
    let relative = match first {
        Some(c) => c != '/',
        None => false,
    };
    if relative {
        proof {
            lemma_relative_has_component(path@);
        }
        let r = comps[0].clone();
        assert(r@ == path_components(path@)[0]);
        return r;
    }
    let mut i: usize = 0;
    proof {
        assert(path_components(path@).skip(0) == path_components(path@));
    }
    while i < comps.len()
        invariant
            string_views(comps@) == path_components(path@),
            i <= comps@.len(),
            !relative,
            relative == (path@.len() > 0 && path@[0] != '/'),
            first_not_dot(path_components(path@)) == first_not_dot(path_components(path@).skip(i as int)),
        decreases comps@.len() - i,
    {
        let ghost rest = path_components(path@).skip(i as int);
        assert(rest[0] == comps@[i as int]@);
        assert(rest.drop_first() == path_components(path@).skip(i + 1));
        if !crate::text::str_eq(comps[i].as_str(), ".") {
            let r = comps[i].clone();
            proof {
                reveal_strlit(".");
            }
            assert(first_not_dot(rest) == Some(r@));
            return r;
        }
        i = i + 1;
    }
    assert(path_components(path@).skip(i as int).len() == 0);
    String::from_str("unk")
}

/// A path that starts with anything but `/` has a first component.
proof fn lemma_relative_has_component(p: Seq<char>)
    requires
        p.len() > 0,
        p[0] != '/',
    ensures
        path_components(p).len() > 0,
{
    lemma_scan_nonempty(p, p.len() as int);
    assert(p.take(p.len() as int) == p);
}

/// Once a component has started, each prefix has a completed component or one being read.
proof fn lemma_scan_nonempty(p: Seq<char>, n: int)
    requires
        p.len() > 0,
        p[0] != '/',
        1 <= n <= p.len(),
    ensures
        scan_components(p.take(n)).0.len() > 0 || scan_components(p.take(n)).1.len() > 0,
    decreases n,
{
    if n > 1 {
        lemma_scan_nonempty(p, n - 1);
        assert(p.take(n).drop_last() == p.take(n - 1));
    } else {
        assert(p.take(1).drop_last() == Seq::<char>::empty());
        assert(p.take(1).last() == p[0]);
    }
}

/// Reading on only adds completed components: the components completed in `s` are the
/// first ones completed in any longer text that starts with `s`.
proof fn lemma_scan_extends(s: Seq<char>, t: Seq<char>)
    ensures
        scan_components(s).0.len() <= scan_components(s + t).0.len(),
        scan_components(s + t).0.take(scan_components(s).0.len() as int) == scan_components(s).0,
    decreases t.len(),
{
    if t.len() == 0 {
        assert(s + t == s);
        assert(scan_components(s).0.take(scan_components(s).0.len() as int) == scan_components(s).0);
    } else {
        lemma_scan_extends(s, t.drop_last());
        let x = s + t.drop_last();
        assert((s + t).drop_last() == x);
        assert((s + t).last() == t.last());
        let a = scan_components(s).0;
        let b = scan_components(x).0;
        let c = scan_components(s + t).0;
        if c != b {
            assert(c == b.push(scan_components(x).1));
            assert(c.take(a.len() as int) =~= b.take(a.len() as int));
        }
    }
}

/// After `/` and a name without `/`, nothing is completed and the name is being read.
proof fn lemma_scan_first_name(c: Seq<char>, n: int)
    requires
        0 <= n <= c.len(),
        forall|i: int| 0 <= i < c.len() ==> c[i] != '/',
    ensures
        scan_components(seq!['/'] + c.take(n)).0.len() == 0,
        scan_components(seq!['/'] + c.take(n)).1 == c.take(n),
    decreases n,
{
    if n == 0 {
        assert(seq!['/'] + c.take(0) =~= seq!['/']);
        assert(seq!['/'].drop_last() =~= Seq::<char>::empty());
        assert(scan_components(Seq::<char>::empty()).0.len() == 0);
        assert(scan_components(seq!['/']).0 == scan_components(Seq::<char>::empty()).0);
    } else {
        lemma_scan_first_name(c, n - 1);
        assert((seq!['/'] + c.take(n)).drop_last() =~= seq!['/'] + c.take(n - 1));
        assert(c.take(n - 1).push(c[n - 1]) =~= c.take(n));
    }
}

/// The namespace of an absolute path is its first component: for a name `c` without `/`
/// other than `.`, the namespace of `/c`, and of `/c/` followed by anything, is `c`.  The
/// components after the first never matter.
pub proof fn lemma_namespace_is_first_component(c: Seq<char>, rest: Seq<char>)
    requires
        c.len() > 0,
        forall|i: int| 0 <= i < c.len() ==> c[i] != '/',
        c != "."@,
    ensures
        namespace_of_path(seq!['/'] + c) == c,
        namespace_of_path(seq!['/'] + c + seq!['/'] + rest) == c,
{
    lemma_scan_first_name(c, c.len() as int);
    assert(c.take(c.len() as int) == c);
    let head = seq!['/'] + c;
    assert(path_components(head) =~= seq![c]);
    let closed = head + seq!['/'];
    assert(closed.drop_last() == head);
    assert(scan_components(closed).0 =~= seq![c]);
    let p = closed + rest;
    assert(seq!['/'] + c + seq!['/'] + rest == p);
    lemma_scan_extends(closed, rest);
    let done = scan_components(p).0;
    assert(done.take(1) == seq![c]);
    assert(done[0] == c) by {
        assert(done.take(1)[0] == done[0]);
    }
    assert(path_components(p)[0] == c);
    assert(p[0] == '/');
    assert(head[0] == '/');
    assert(first_not_dot(path_components(head)) == Some(c));
    assert(first_not_dot(path_components(p)) == Some(c));
}

/// The text a gene type is configured with.
pub open spec fn configure_text(gt: GeneType) -> Seq<char> {
    match gt {
        GeneType::Accum => "accum"@,
        GeneType::Gauge => "gauge"@,
        _ => "gauge_and_accum"@,
    }
}

/// The text a gene type is configured with.
pub fn gene_type_config_text(gt: GeneType) -> (r: String)
    ensures
        r@ == configure_text(gt),
{
    match gt {
        GeneType::Accum => String::from_str("accum"),
        GeneType::Gauge => String::from_str("gauge"),
        _ => String::from_str("gauge_and_accum"),
    }
}

} // verus!
