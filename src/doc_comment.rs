//! From the documentation lines of a field to the description of its line in
//! a documentation tree.
use vstd::prelude::*;

verus! {

/// A documentation line without the single space that usually follows the
/// comment marker.
pub open spec fn stripped(line: Seq<char>) -> Seq<char> {
    if line.len() > 0 && line[0] == ' ' {
        line.drop_first()
    } else {
        line
    }
}

/// The documentation lines of a field, each stripped.
pub open spec fn stripped_lines(lines: Seq<String>) -> Seq<Seq<char>> {
    lines.map_values(|s: String| stripped(s@))
}

/// A line that holds nothing but spaces and tabs.
pub open spec fn is_blank(line: Seq<char>) -> bool {
    forall|j: int| 0 <= j < line.len() ==> #[trigger] line[j] == ' ' || line[j] == '\t'
}

/// The first of `lines` that is not blank, or the empty sequence where there
/// is none.
pub open spec fn first_nonblank(lines: Seq<Seq<char>>) -> Seq<char>
    decreases lines.len(),
{
    if lines.len() == 0 {
        Seq::empty()
    } else if !is_blank(lines[0]) {
        lines[0]
    } else {
        first_nonblank(lines.drop_first())
    }
}

/// Whether `line` holds nothing but spaces and tabs.
fn is_blank_line(line: &str) -> (r: bool)
    ensures
        r == is_blank(line@),
{
    let n = line.unicode_len();
    let mut i: usize = 0;
    while i < n
        invariant
            n == line@.len(),
            0 <= i <= n,
            forall|j: int| 0 <= j < i ==> #[trigger] line@[j] == ' ' || line@[j] == '\t',
        decreases n - i,
    {
        let c = line.get_char(i);
        if c != ' ' && c != '\t' {
            return false;
        }
        i += 1;
    }
    true
}

/// The documentation lines of a field, each without the single space that
/// follows the comment marker.
pub fn extract_doc_comment(doc_lines: &Vec<String>) -> (r: Vec<String>)
    ensures
        r@.len() == doc_lines@.len(),
        forall|i: int| 0 <= i < r@.len() ==> #[trigger] r@[i]@ == stripped(doc_lines@[i]@),
{
    let mut out: Vec<String> = Vec::new();
    let n = doc_lines.len();
    let mut i: usize = 0;
    while i < n
        invariant
            n == doc_lines@.len(),
            0 <= i <= n,
            out@.len() == i,
            forall|j: int| 0 <= j < i ==> #[trigger] out@[j]@ == stripped(doc_lines@[j]@),
        decreases n - i,
    {
        let line = doc_lines[i].as_str();
        let len = line.unicode_len();
        if len > 0 && line.get_char(0) == ' ' {
            let rest = line.substring_char(1, len);
            assert(rest@ =~= line@.drop_first());
            out.push(rest.to_owned());
        } else {
            out.push(line.to_owned());
        }
        i += 1;
    }
    out
}

/// The description of a field: its first documentation line that is not
/// blank, without the single space that follows the comment marker; empty
/// where the field has no such line.
pub fn field_description(doc_lines: &Vec<String>) -> (r: String)
    ensures
        r@ == first_nonblank(stripped_lines(doc_lines@)),
{
    let lines = extract_doc_comment(doc_lines);
    let ghost all = stripped_lines(doc_lines@);
    let n = lines.len();
    let mut i: usize = 0;
    assert(all.skip(0) =~= all);
    while i < n
        invariant
            n == lines@.len(),
            n == all.len(),
            all == stripped_lines(doc_lines@),
            0 <= i <= n,
            forall|j: int| 0 <= j < n ==> #[trigger] lines@[j]@ == all[j],
            first_nonblank(all) == first_nonblank(all.skip(i as int)),
        decreases n - i,
    {
        let line = lines[i].as_str();
        proof {
            assert(all.skip(i as int)[0] == all[i as int]);
        }
        if !is_blank_line(line) {
            proof {
                assert(all.skip(i as int).len() > 0);
                assert(!is_blank(all.skip(i as int)[0]));
                assert(first_nonblank(all.skip(i as int)) == all[i as int]);
            }
            return lines[i].clone();
        }
        proof {
            assert(all.skip(i as int).drop_first() =~= all.skip(i + 1));
        }
        i += 1;
    }
    proof {
        assert(all.skip(n as int).len() == 0);
    }
    String::new()
}

} // verus!
