use vstd::prelude::*;

verus! {

pub uninterp spec fn lines_of(s: Seq<char>) -> Seq<Seq<char>>;

pub uninterp spec fn trimmed(s: Seq<char>) -> Seq<char>;

/// Relies on `str::lines`: the lines of a text, each without its line
/// ending; the result depends on the text alone.
#[verifier::external_body]
fn text_lines(s: &str) -> (r: Vec<String>)
    ensures
        texts(r@) == lines_of(s@),
{
    s.lines().map(|l| l.to_string()).collect()
}

/// Relies on `str::trim`: the text without its leading and trailing
/// whitespace; the result depends on the text alone.
#[verifier::external_body]
fn trim_text(s: &str) -> (r: String)
    ensures
        r@ == trimmed(s@),
{
    s.trim().to_string()
}

/// The texts of `s` that are not empty, in order.
pub open spec fn non_empty(s: Seq<Seq<char>>) -> Seq<Seq<char>>
    decreases s.len(),
{
    if s.len() == 0 {
        Seq::empty()
    } else {
        let rest = non_empty(s.drop_last());
        if s.last().len() > 0 {
            rest.push(s.last())
        } else {
            rest
        }
    }
}

pub open spec fn texts(v: Seq<String>) -> Seq<Seq<char>> {
    v.map_values(|l: String| l@)
}

/// Keeps the lines that are not empty, in order.
pub fn select_urls(lines: &Vec<String>) -> (r: Vec<String>)
    ensures
        texts(r@) == non_empty(texts(lines@)),
{
    let mut r: Vec<String> = Vec::new();
    let mut i: usize = 0;
    while i < lines.len()
        invariant
            i <= lines@.len(),
            texts(r@) == non_empty(texts(lines@).take(i as int)),
        decreases lines.len() - i,
    {
        let line = &lines[i];
        let ghost before = r@;
        assert(texts(lines@).take(i + 1).drop_last() =~= texts(lines@).take(i as int));
        assert(texts(lines@).take(i + 1).last() == line@);
        if line.as_str().unicode_len() > 0 {
            r.push(line.clone());
            assert(texts(r@) =~= texts(before).push(line@));
        }
        i = i + 1;
    }
    assert(texts(lines@).take(lines@.len() as int) =~= texts(lines@));
    r
}

/// The targets listed in the text of a URL list: each line trimmed of
/// surrounding whitespace, blank lines left out, in order.
pub fn urls_from_text(content: &str) -> (r: Vec<String>)
    ensures
        texts(r@) == non_empty(lines_of(content@).map_values(|l: Seq<char>| trimmed(l))),
{
    let lines = text_lines(content);
    let mut t: Vec<String> = Vec::new();
    let mut i: usize = 0;
    while i < lines.len()
        invariant
            i <= lines@.len(),
            texts(lines@) == lines_of(content@),
            texts(t@) =~= lines_of(content@).take(i as int).map_values(|l: Seq<char>| trimmed(l)),
        decreases lines.len() - i,
    {
        let line = trim_text(lines[i].as_str());
        assert(texts(lines@)[i as int] == lines@[i as int]@);
        let ghost before = t@;
        t.push(line);
        assert(texts(t@) =~= texts(before).push(line@));
        i = i + 1;
    }
    assert(lines_of(content@).take(lines@.len() as int) =~= lines_of(content@));
    select_urls(&t)
}

} // verus!
