use vstd::prelude::*;
use crate::structures::{ListVersionsParams, ModLoader};

verus! {

/// The name under which the service knows a loader.
pub open spec fn loader_name(l: ModLoader) -> Seq<char> {
    match l {
        ModLoader::Forge => "forge"@,
        ModLoader::Fabric => "fabric"@,
    }
}

/// One character inside a quoted array element: `"` and `\` get a backslash.
pub open spec fn escape_char(c: char) -> Seq<char> {
    if c == '"' || c == '\\' {
        seq!['\\', c]
    } else {
        seq![c]
    }
}

/// The characters of `s`, each escaped.
pub open spec fn escaped(s: Seq<char>) -> Seq<char>
    decreases s.len(),
{
    if s.len() == 0 {
        Seq::empty()
    } else {
        escaped(s.drop_last()) + escape_char(s.last())
    }
}

/// `s` as a double-quoted element.
pub open spec fn quoted(s: Seq<char>) -> Seq<char> {
    seq!['"'] + escaped(s) + seq!['"']
}

/// The quoted items, separated by commas.
pub open spec fn array_items(items: Seq<Seq<char>>) -> Seq<char>
    decreases items.len(),
{
    if items.len() == 0 {
        Seq::empty()
    } else if items.len() == 1 {
        quoted(items[0])
    } else {
        array_items(items.drop_last()) + seq![','] + quoted(items.last())
    }
}

/// The bracketed array literal the service parses, e.g. `["1.20","1.20.1"]`.
pub open spec fn array_literal(items: Seq<Seq<char>>) -> Seq<char> {
    seq!['['] + array_items(items) + seq![']']
}

/// The literal text of a boolean filter.
pub open spec fn bool_text(b: bool) -> Seq<char> {
    if b {
        "true"@
    } else {
        "false"@
    }
}

/// The views of a list of strings.
pub open spec fn string_views(v: Seq<String>) -> Seq<Seq<char>> {
    v.map_values(|s: String| s@)
}

/// The service names of a list of loaders.
pub open spec fn loader_names(v: Seq<ModLoader>) -> Seq<Seq<char>> {
    v.map_values(|l: ModLoader| loader_name(l))
}

/// The query pairs that a set of list filters contributes, in order:
/// loaders, game versions, featured. An absent filter contributes nothing.
pub open spec fn query_pairs(p: ListVersionsParams) -> Seq<(Seq<char>, Seq<char>)> {
    let a: Seq<(Seq<char>, Seq<char>)> = match p.loaders {
        Some(l) => seq![("loaders"@, array_literal(loader_names(l@)))],
        None => Seq::empty(),
    };
    let b: Seq<(Seq<char>, Seq<char>)> = match p.game_versions {
        Some(g) => seq![("game_versions"@, array_literal(string_views(g@)))],
        None => Seq::empty(),
    };
    let c: Seq<(Seq<char>, Seq<char>)> = match p.featured {
        Some(f) => seq![("featured"@, bool_text(f))],
        None => Seq::empty(),
    };
    a + b + c
}

impl ModLoader {
    /// The name under which the service knows this loader.
    pub fn name(&self) -> (r: &'static str)
        ensures
            r@ == loader_name(*self),
    {
        match self {
            ModLoader::Forge => "forge",
            ModLoader::Fabric => "fabric",
        }
    }
}

/// Append `s` to `out` as a double-quoted, escaped element.
fn push_quoted(out: &mut String, s: &str)
    ensures
        final(out)@ == old(out)@ + quoted(s@),
{
    proof {
        reveal_strlit("\"");
        reveal_strlit("\\");
    }
    out.append("\"");
    let n = s.unicode_len();
    let mut i: usize = 0;
    while i < n
        invariant
            n == s@.len(),
            i <= n,
            out@ == old(out)@ + seq!['"'] + escaped(s@.subrange(0, i as int)),
        decreases n - i,
    {
        let c = s.get_char(i);
        let ghost before = out@;
        if c == '"' || c == '\\' {
            out.append("\\");
        }
        let ghost mid = out@;
        out.append(s.substring_char(i, i + 1));
        proof {
            let p = s@.subrange(0, i + 1);
            assert(p.drop_last() =~= s@.subrange(0, i as int));
            assert(p.last() == c);
            assert(s@.subrange(i as int, i + 1) =~= seq![c]);
            assert(escaped(p) == escaped(s@.subrange(0, i as int)) + escape_char(c));
            if c == '"' || c == '\\' {
                reveal_strlit("\\");
                assert("\\"@ =~= seq!['\\']);
                assert(mid =~= before + seq!['\\']);
                assert(out@ =~= before + escape_char(c));
            } else {
                assert(out@ =~= before + escape_char(c));
            }
        }
        assert(out@ =~= old(out)@ + seq!['"'] + escaped(s@.subrange(0, i + 1)));
        i += 1;
    }
    assert(s@.subrange(0, n as int) =~= s@);
    out.append("\"");
    assert(out@ =~= old(out)@ + quoted(s@));
}

/// Serialize `items` as the bracketed array literal the service expects.
pub fn array_query_value(items: &Vec<String>) -> (r: String)
    ensures
        r@ == array_literal(string_views(items@)),
{
    proof {
        reveal_strlit("[");
        reveal_strlit("]");
        reveal_strlit(",");
    }
    let ghost views = string_views(items@);
    let mut out = String::from_str("[");
    let mut i: usize = 0;
    while i < items.len()
        invariant
            i <= items@.len(),
            views == string_views(items@),
            out@ == seq!['['] + array_items(views.subrange(0, i as int)),
        decreases items@.len() - i,
    {
        let ghost before = out@;
        if i > 0 {
            out.append(",");
        }
        let ghost mid = out@;
        push_quoted(&mut out, items[i].as_str());
        proof {
            let p = views.subrange(0, i + 1);
            assert(p.drop_last() =~= views.subrange(0, i as int));
            assert(p.last() == items@[i as int]@);
            if i == 0 {
                assert(array_items(p) == quoted(items@[0]@));
                assert(mid == before);
                assert(array_items(views.subrange(0, 0)) =~= Seq::<char>::empty());
                assert(before =~= seq!['[']);
            } else {
                assert(array_items(p) == array_items(views.subrange(0, i as int)) + seq![',']
                    + quoted(items@[i as int]@));
                reveal_strlit(",");
                assert(","@ =~= seq![',']);
                assert(mid =~= before + seq![',']);
            }
        }
        assert(out@ =~= seq!['['] + array_items(views.subrange(0, i + 1)));
        i += 1;
    }
    assert(views.subrange(0, i as int) =~= views);
    out.append("]");
    assert(out@ =~= array_literal(views));
    out
}

/// Serialize a loader filter, e.g. `["fabric"]`.
pub fn loaders_query_value(loaders: &Vec<ModLoader>) -> (r: String)
    ensures
        r@ == array_literal(loader_names(loaders@)),
{
    let mut names: Vec<String> = Vec::new();
    let mut i: usize = 0;
    while i < loaders.len()
        invariant
            i <= loaders@.len(),
            names@.len() == i,
            forall|j: int| 0 <= j < i ==> (#[trigger] names@[j])@ == loader_name(loaders@[j]),
        decreases loaders@.len() - i,
    {
        let name = String::from_str(loaders[i].name());
        names.push(name);
        i += 1;
    }
    assert(string_views(names@) =~= loader_names(loaders@));
    array_query_value(&names)
}

/// Serialize a boolean filter as `true` or `false`.
pub fn bool_query_value(b: bool) -> (r: String)
    ensures
        r@ == bool_text(b),
{
    if b {
        String::from_str("true")
    } else {
        String::from_str("false")
    }
}

/// The query pairs, in order, that `params` adds to a version listing URL.
pub fn list_versions_query(params: &ListVersionsParams) -> (r: Vec<(String, String)>)
    ensures
        r@.len() == query_pairs(*params).len(),
        forall|i: int|
            0 <= i < r@.len() ==> (#[trigger] r@[i]).0@ == query_pairs(*params)[i].0 && r@[i].1@
                == query_pairs(*params)[i].1,
{
    let mut out: Vec<(String, String)> = Vec::new();
    let ghost want = query_pairs(*params);
    match &params.loaders {
        Some(l) => {
            out.push((String::from_str("loaders"), loaders_query_value(l)));
        },
        None => {},
    }
    match &params.game_versions {
        Some(g) => {
            out.push((String::from_str("game_versions"), array_query_value(g)));
        },
        None => {},
    }
    match params.featured {
        Some(f) => {
            out.push((String::from_str("featured"), bool_query_value(f)));
        },
        None => {},
    }
    out
}

} // verus!
