//! Actor paths: their components, the normalized path of each ancestor, and the
//! small rewrites the API and the CLI apply to paths.
use crate::text::push_char;
use vstd::prelude::*;

verus! {

/// Splits `s` at each `/`: the components completed so far, without empty ones, and
/// the component still being read.
pub open spec fn scan_components(s: Seq<char>) -> (Seq<Seq<char>>, Seq<char>)
    decreases s.len(),
{
    if s.len() == 0 {
        (Seq::empty(), Seq::empty())
    } else {
        let (done, cur) = scan_components(s.drop_last());
        if s.last() == '/' {
            if cur.len() > 0 {
                (done.push(cur), Seq::empty())
            } else {
                (done, Seq::empty())
            }
        } else {
            (done, cur.push(s.last()))
        }
    }
}

/// The non-empty components of a path, in order: `path.split('/').filter(|s| !s.is_empty())`.
pub open spec fn path_components(s: Seq<char>) -> Seq<Seq<char>> {
    let (done, cur) = scan_components(s);
    if cur.len() > 0 {
        done.push(cur)
    } else {
        done
    }
}

/// The normalized path of a list of components: `/c1/c2/.../cn`.
pub open spec fn joined_path(comps: Seq<Seq<char>>) -> Seq<char>
    decreases comps.len(),
{
    if comps.len() == 0 {
        Seq::empty()
    } else {
        joined_path(comps.drop_last()) + seq!['/'] + comps.last()
    }
}

/// `s` with a `/` in front, unless it already starts with one.
pub open spec fn with_leading_slash(s: Seq<char>) -> Seq<char> {
    if s.len() > 0 && s[0] == '/' {
        s
    } else {
        seq!['/'] + s
    }
}

/// Puts a `/` in front of `s` unless it already starts with one.
pub fn prepend_slash(s: String) -> (r: String)
    ensures
        r@ == with_leading_slash(s@),
{
    let mut first: Option<char> = None;
    for c in it: s.as_str().chars()
        invariant
            it.seq() == s@,
            it.index() == 0 ==> first is None,
            it.index() > 0 ==> first == Some(s@[0]),
    {
        if first.is_none() {
            first = Some(c);
        }
    }
    match first {
        Some('/') => s,
        _ => {
            let mut r = String::new();
            push_char(&mut r, '/');
            r.append(s.as_str());
            r
        },
    }
}

/// The views of a list of strings.
pub open spec fn string_views(v: Seq<String>) -> Seq<Seq<char>> {
    v.map_values(|x: String| x@)
}

/// The non-empty components of a path, in order.
pub fn components_of(path: &str) -> (r: Vec<String>)
    ensures
        string_views(r@) == path_components(path@),
{
    let mut done: Vec<String> = Vec::new();
    let mut comp = String::new();
    let mut has_comp = false;
    for c in it: path.chars()
        invariant
            it.seq() == path@,
            has_comp == (comp@.len() > 0),
            scan_components(path@.take(it.index())).1 == comp@,
            string_views(done@) == scan_components(path@.take(it.index())).0,
    {
        let ghost prefix = path@.take(it.index());
        assert(path@.take(it.index() + 1).drop_last() == prefix);
        if c == '/' {
            if has_comp {
                let ghost before = done@;
                done.push(comp);
                assert(string_views(done@) =~= string_views(before).push(scan_components(prefix).1));
                comp = String::new();
                has_comp = false;
            }
        } else {
            push_char(&mut comp, c);
            has_comp = true;
        }
    }
    assert(path@.take(path@.len() as int) == path@);
    if has_comp {
        let ghost before = done@;
        let ghost last = comp@;
        done.push(comp);
        assert(string_views(done@) =~= string_views(before).push(last));
    }
    done
}

} // verus!
