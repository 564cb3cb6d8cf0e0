use vstd::prelude::*;

verus! {

/// A header as text: its name and its value.
pub type HeaderText = (Seq<char>, Seq<char>);

pub open spec fn header_view(p: (String, String)) -> HeaderText {
    (p.0@, p.1@)
}

/// The headers `v` as text, in order.
pub open spec fn headers_view(v: Seq<(String, String)>) -> Seq<HeaderText> {
    v.map_values(|p: (String, String)| header_view(p))
}

/// The value of the first header in `h` whose name is exactly `key`.
pub open spec fn lookup(h: Seq<(String, String)>, key: Seq<char>) -> Option<Seq<char>>
    decreases h.len(),
{
    if h.len() == 0 {
        None
    } else if h[0].0@ == key {
        Some(h[0].1@)
    } else {
        lookup(h.drop_first(), key)
    }
}

/// No two headers of `h` share a name: `h` holds a map from names to values.
pub open spec fn unique_names(h: Seq<(String, String)>) -> bool {
    forall|i: int, j: int| 0 <= i < j < h.len() ==> h[i].0@ != h[j].0@
}

/// Where names are unique, looking a name up finds the one header of that name, as a map
/// lookup does.
pub proof fn lemma_lookup_unique(h: Seq<(String, String)>, i: int)
    requires
        unique_names(h),
        0 <= i < h.len(),
    ensures
        lookup(h, h[i].0@) == Some(h[i].1@),
    decreases h.len(),
{
    if i > 0 {
        let t = h.drop_first();
        assert(h[0].0@ != h[i].0@);
        assert(t[i - 1] == h[i]);
        assert forall|a: int, b: int| 0 <= a < b < t.len() implies t[a].0@ != t[b].0@ by {
            assert(t[a] == h[a + 1] && t[b] == h[b + 1]);
        }
        lemma_lookup_unique(t, i - 1);
    }
}

/// Appends the header `(name, value)` to `h`.
pub fn push_header(h: &mut Vec<(String, String)>, name: &str, value: String)
    ensures
        headers_view(final(h)@) == headers_view(old(h)@).push((name@, value@)),
{
    let ghost before = h@;
    h.push((String::from_str(name), value));
    assert(headers_view(h@) =~= headers_view(before).push((name@, value@))) by {
        assert(h@ == before.push(h@.last()));
    }
}

/// The value of the first header in `h` named exactly `key`.
pub fn find_header<'a>(h: &'a Vec<(String, String)>, key: &str) -> (r: Option<&'a str>)
    ensures
        match r {
            Some(v) => lookup(h@, key@) == Some(v@),
            None => lookup(h@, key@) is None,
        },
{
    let mut i: usize = 0;
    assert(h@.subrange(0, h@.len() as int) =~= h@);
    while i < h.len()
        invariant
            i <= h@.len(),
            lookup(h@, key@) == lookup(h@.subrange(i as int, h@.len() as int), key@),
        decreases h@.len() - i,
    {
        let ghost rest = h@.subrange(i as int, h@.len() as int);
        assert(rest[0] == h@[i as int]);
        if crate::text::same_text(h[i].0.as_str(), key) {
            return Some(h[i].1.as_str());
        }
        assert(rest.drop_first() =~= h@.subrange(i + 1, h@.len() as int));
        i = i + 1;
    }
    None
}

} // verus!
