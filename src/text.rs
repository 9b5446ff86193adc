use vstd::prelude::*;

verus! {

/// Values joined with a single comma between neighbours, in order.
pub open spec fn joined(values: Seq<Seq<char>>) -> Seq<char>
    decreases values.len(),
{
    if values.len() == 0 {
        Seq::empty()
    } else if values.len() == 1 {
        values[0]
    } else {
        joined(values.drop_last()) + seq![','] + values.last()
    }
}

/// The views of a vector of strings.
pub open spec fn strings_view(v: Seq<String>) -> Seq<Seq<char>> {
    v.map_values(|s: String| s@)
}

/// Character-wise comparison of two strings.
pub fn same_text(a: &str, b: &str) -> (r: bool)
    ensures
        r == (a@ == b@),
{
    let n = a.unicode_len();
    if n != b.unicode_len() {
        return false;
    }
    let mut i: usize = 0;
    while i < n
        invariant
            n == a@.len(),
            n == b@.len(),
            i <= n,
            forall|j: int| 0 <= j < i ==> a@[j] == b@[j],
        decreases n - i,
    {
        if a.get_char(i) != b.get_char(i) {
            return false;
        }
        i += 1;
    }
    assert(a@ =~= b@);
    true
}

/// Joins the values with commas, as the list tags of a tags document carry them.
pub fn join_with_commas(values: &Vec<String>) -> (r: String)
    ensures
        r@ == joined(strings_view(values@)),
{
    let mut r = String::new();
    let mut i: usize = 0;
    while i < values.len()
        invariant
            i <= values.len(),
            r@ == joined(strings_view(values@.take(i as int))),
        decreases values.len() - i,
    {
        proof {
            let pre = strings_view(values@.take(i as int));
            let post = strings_view(values@.take(i + 1));
            assert(post.drop_last() =~= pre);
            assert(post.last() == values@[i as int]@);
        }
        if i > 0 {
            r.append(",");
            proof {
                reveal_strlit(",");
            }
        }
        r.append(values[i].as_str());
        proof {
            let post = strings_view(values@.take(i + 1));
            if i == 0 {
                assert(post.len() == 1);
            }
        }
        i += 1;
    }
    assert(values@.take(values.len() as int) =~= values@);
    r
}

/// The entity that stands for a character in XML character data, or the
/// character itself where none is needed.
pub open spec fn escaped_char(c: char) -> Seq<char> {
    if c == '<' {
        seq!['&', 'l', 't', ';']
    } else if c == '>' {
        seq!['&', 'g', 't', ';']
    } else if c == '&' {
        seq!['&', 'a', 'm', 'p', ';']
    } else {
        seq![c]
    }
}

/// Text made safe to stand as XML character data.
pub open spec fn escaped(s: Seq<char>) -> Seq<char>
    decreases s.len(),
{
    if s.len() == 0 {
        Seq::empty()
    } else {
        escaped(s.drop_last()) + escaped_char(s.last())
    }
}

/// Relies on xml::escape::escape_str_pcdata, which replaces each `<`, `>`
/// and `&` by its entity and keeps every other character.
#[verifier::external_body]
pub(crate) fn escape_text(s: &str) -> (r: String)
    ensures
        r@ == escaped(s@),
{
    xml::escape::escape_str_pcdata(s).into_owned()
}

} // verus!
