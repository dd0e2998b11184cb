//! The scan of the remote catalog page for model entries.

use crate::text::{chars_of, contains_text, find_from, first_occurrence, occurs, occurs_at};
use crate::text::{slice_of, some_text, string_of, texts_view};
use vstd::prelude::*;
use vstd::string::*;

verus! {

/// What an `OnlineModel` stands for in contracts.
pub ghost struct EntryView {
    pub name: Seq<char>,
    pub description: Option<Seq<char>>,
    pub url: Seq<char>,
}

/// An entry of the remote catalog.
#[derive(Debug)]
pub struct OnlineModel {
    pub name: String,
    pub description: Option<String>,
    pub url: String,
}

impl View for OnlineModel {
    type V = EntryView;

    open spec fn view(&self) -> EntryView {
        EntryView {
            name: self.name@,
            description: match self.description {
                Some(d) => Some(d@),
                None => None,
            },
            url: self.url@,
        }
    }
}

impl Clone for OnlineModel {
    fn clone(&self) -> (copy: Self)
        ensures
            copy@ == self@,
    {
        let description = match &self.description {
            Some(d) => Some(d.clone()),
            None => None,
        };
        OnlineModel { name: self.name.clone(), description, url: self.url.clone() }
    }
}

/// The views of a list of entries, in order.
pub open spec fn entries_view(entries: Seq<OnlineModel>) -> Seq<EntryView> {
    entries.map_values(|e: OnlineModel| e@)
}

/// What introduces the address of a link.
pub open spec fn href_key() -> Seq<char> {
    "href=\""@
}

/// What ends the address of a link.
pub open spec fn quote() -> Seq<char> {
    "\""@
}

/// What the address of a catalog entry begins with.
pub open spec fn library_prefix() -> Seq<char> {
    "/library/"@
}

/// What an anchor element begins with.
pub open spec fn anchor_start() -> Seq<char> {
    "<a "@
}

/// What ends a line.
pub open spec fn newline() -> Seq<char> {
    "\n"@
}

/// The address of the first link in a line: what stands between the first
/// `href="` and the next quote.
pub open spec fn href_value(line: Seq<char>) -> Option<Seq<char>> {
    match first_occurrence(line, href_key(), 0) {
        Some(at) => match first_occurrence(line, quote(), at + href_key().len()) {
            Some(end) => Some(line.subrange(at + href_key().len(), end)),
            None => None,
        },
        None => None,
    }
}

/// The name of the catalog entry that an address leads to: what follows
/// `/library/`, where that is not empty and holds neither a further path
/// segment nor a query.
pub open spec fn entry_of_href(href: Seq<char>) -> Option<Seq<char>> {
    let name = href.subrange(library_prefix().len() as int, href.len() as int);
    if !occurs_at(href, library_prefix(), 0) {
        None
    } else if name.len() == 0 || name.contains('/') || name.contains('?') {
        None
    } else {
        Some(name)
    }
}

/// The name of the catalog entry that the first link of a line leads to.
pub open spec fn model_name(line: Seq<char>) -> Option<Seq<char>> {
    match href_value(line) {
        Some(href) => entry_of_href(href),
        None => None,
    }
}

/// An address leads to the entry `name` exactly where it is `/library/`
/// followed by `name`, and `name` is not empty and holds neither `/` nor
/// `?`.
pub proof fn lemma_entry_of_href(href: Seq<char>, name: Seq<char>)
    ensures
        entry_of_href(href) == Some(name) <==> (href == library_prefix() + name && name.len() > 0
            && !name.contains('/') && !name.contains('?')),
{
    let prefix = library_prefix();
    let rest = href.subrange(prefix.len() as int, href.len() as int);
    if href == prefix + name {
        assert(href.subrange(0, prefix.len() as int) =~= prefix);
        assert(rest =~= name);
    }
    if entry_of_href(href) == Some(name) {
        assert(href =~= href.subrange(0, prefix.len() as int) + rest);
    }
}

/// Whether `c` stands in `text` at or after `from`.
fn has_char(text: &Vec<char>, from: usize, c: char) -> (yes: bool)
    requires
        from <= text@.len(),
    ensures
        yes == text@.subrange(from as int, text@.len() as int).contains(c),
{
    let n: usize = text.len();
    let ghost tail = text@.subrange(from as int, n as int);
    let mut i: usize = from;
    while i < n
        invariant
            n == text@.len(),
            from <= i <= n,
            tail == text@.subrange(from as int, n as int),
            forall|j: int| 0 <= j < i - from ==> tail[j] != c,
        decreases n - i,
    {
        if text[i] == c {
            assert(tail[i - from] == c);
            return true;
        }
        i += 1;
    }
    false
}

/// The name of the catalog entry that the first link of `line` leads to.
pub fn model_name_in(line: &Vec<char>) -> (name: Option<String>)
    ensures
        some_text(name) == model_name(line@),
        name matches Some(n) ==> n@.len() > 0 && !n@.contains('/') && !n@.contains('?'),
{
    let n: usize = line.len();
    let key = chars_of("href=\"");
    let at: usize = match find_from(line, &key, 0) {
        Some(at) => at,
        None => {
            return None;
        },
    };
    let start: usize = at + key.len();
    let quote = chars_of("\"");
    let end: usize = match find_from(line, &quote, start) {
        Some(end) => end,
        None => {
            return None;
        },
    };
    let href = slice_of(line, start, end);
    let prefix = chars_of("/library/");
    if !occurs(&href, &prefix, 0) {
        return None;
    }
    let from: usize = prefix.len();
    if from == href.len() || has_char(&href, from, '/') || has_char(&href, from, '?') {
        return None;
    }
    Some(string_of(&href, from, href.len()))
}

/// The name of the catalog entry that the first link of `line` leads to:
/// for `href="/library/llama3"` it is `llama3`, and there is none where the
/// address goes on with a further segment or a query. The second argument
/// is kept for callers that pass the catalog's address; it is not read.
pub fn extract_model_name(line: &str, _base_url: &str) -> (name: Option<String>)
    ensures
        some_text(name) == model_name(line@),
        name matches Some(n) ==> n@.len() > 0 && !n@.contains('/') && !n@.contains('?'),
{
    let chars = chars_of(line);
    model_name_in(&chars)
}

/// The lower-case form of a text, as `str::to_lowercase` gives it.
pub uninterp spec fn lowercase(text: Seq<char>) -> Seq<char>;

/// `str::to_lowercase`: the text with each character replaced by its
/// lower-case form after the Unicode rules. The contract only names that
/// result.
#[verifier::external_body]
fn to_lowercase(text: &str) -> (lower: String)
    ensures
        lower@ == lowercase(text@),
{
    text.to_lowercase()
}

/// Where the line that begins at `from` ends: at the next line feed, or at
/// the end of the text.
pub open spec fn line_end(body: Seq<char>, from: int) -> int {
    match first_occurrence(body, newline(), from) {
        Some(at) => at,
        None => body.len() as int,
    }
}

/// The line between `from` and `end`, without the carriage return that
/// stands before a line feed.
pub open spec fn line_at(body: Seq<char>, from: int, end: int) -> Seq<char> {
    if from < end < body.len() && body[end - 1] == '\r' {
        body.subrange(from, end - 1)
    } else {
        body.subrange(from, end)
    }
}

/// The lines of `body` from the position `from` on.
pub open spec fn lines_from(body: Seq<char>, from: int) -> Seq<Seq<char>>
    decreases body.len() + 1 - from,
{
    if from < 0 || from >= body.len() {
        Seq::empty()
    } else {
        let end = line_end(body, from);
        if from <= end <= body.len() {
            seq![line_at(body, from, end)] + lines_from(body, end + 1)
        } else {
            Seq::empty()
        }
    }
}

/// The lines of a text: what stands between its line feeds. A line feed
/// at the very end opens no further line.
pub open spec fn lines_of(body: Seq<char>) -> Seq<Seq<char>> {
    lines_from(body, 0)
}

/// The views of a list of lines, in order.
pub open spec fn lines_view(lines: Seq<Vec<char>>) -> Seq<Seq<char>> {
    lines.map_values(|l: Vec<char>| l@)
}

/// The lines of `body`.
pub fn split_lines(body: &Vec<char>) -> (lines: Vec<Vec<char>>)
    ensures
        lines_view(lines@) == lines_of(body@),
{
    let n: usize = body.len();
    let feed = chars_of("\n");
    let mut lines: Vec<Vec<char>> = Vec::new();
    let mut i: usize = 0;
    proof {
        reveal_strlit("\n");
        assert(lines_view(lines@) =~= Seq::<Seq<char>>::empty());
        assert(Seq::<Seq<char>>::empty() + lines_from(body@, 0) =~= lines_from(body@, 0));
    }
    while i < n
        invariant
            n == body@.len(),
            i <= n,
            feed@ == newline(),
            newline().len() == 1,
            lines_of(body@) == lines_view(lines@) + lines_from(body@, i as int),
        decreases n - i,
    {
        let ghost before = lines_view(lines@);
        let found = find_from(body, &feed, i);
        let end: usize = match found {
            Some(at) => at,
            None => n,
        };
        assert(end == line_end(body@, i as int));
        let stop: usize = if i < end && end < n && body[end - 1] == '\r' {
            end - 1
        } else {
            end
        };
        let line = slice_of(body, i, stop);
        assert(line@ == line_at(body@, i as int, end as int));
        lines.push(line);
        proof {
            assert(lines_view(lines@) =~= before.push(line@));
            assert(before + (seq![line@] + lines_from(body@, end + 1)) =~= before.push(line@)
                + lines_from(body@, end + 1));
        }
        if end == n {
            assert(lines_from(body@, n + 1) =~= lines_from(body@, n as int));
            i = n;
        } else {
            i = end + 1;
        }
    }
    proof {
        assert(lines_view(lines@) + Seq::<Seq<char>>::empty() =~= lines_view(lines@));
    }
    lines
}

/// The name of the entry that a line of the catalog page holds: the line
/// has to hold an anchor and a catalog address.
pub open spec fn entry_name(line: Seq<char>) -> Option<Seq<char>> {
    if contains_text(line, library_prefix()) && contains_text(line, anchor_start()) {
        model_name(line)
    } else {
        None
    }
}

/// A name matches a query where the query is empty or where the name
/// contains it, both taken in lower case.
pub open spec fn name_matches(name: Seq<char>, query: Seq<char>) -> bool {
    query.len() == 0 || contains_text(lowercase(name), lowercase(query))
}

/// The names of the entries in `lines` that match `query`, in the order of
/// the lines, repeated as often as the lines hold them.
pub open spec fn matching_names(lines: Seq<Seq<char>>, query: Seq<char>) -> Seq<Seq<char>>
    decreases lines.len(),
{
    if lines.len() == 0 {
        Seq::empty()
    } else {
        let rest = matching_names(lines.drop_last(), query);
        match entry_name(lines.last()) {
            Some(name) if name_matches(name, query) => rest.push(name),
            _ => rest,
        }
    }
}

/// The names without repetitions: each stands where it was first seen.
pub open spec fn first_seen(names: Seq<Seq<char>>) -> Seq<Seq<char>>
    decreases names.len(),
{
    if names.len() == 0 {
        Seq::empty()
    } else {
        let rest = first_seen(names.drop_last());
        if rest.contains(names.last()) {
            rest
        } else {
            rest.push(names.last())
        }
    }
}

/// At most the first `cap` names.
pub open spec fn capped(names: Seq<Seq<char>>, cap: nat) -> Seq<Seq<char>> {
    if cap < names.len() {
        names.subrange(0, cap as int)
    } else {
        names
    }
}

/// The address of the catalog's page.
pub open spec fn catalog_url() -> Seq<char> {
    "https://ollama.com/library"@
}

/// The address of the catalog's page with the popular entries first.
pub open spec fn popular_url() -> Seq<char> {
    "https://ollama.com/library?sort=popular"@
}

/// The catalog entry of the model `name`.
pub open spec fn entry_for(name: Seq<char>) -> EntryView {
    EntryView { name, description: None, url: "https://ollama.com/library/"@ + name }
}

/// The names that a scan of the page `body` for `query` gives: those of
/// the matching entries, each once, in the order first seen, `cap` at most.
pub open spec fn catalog_names(body: Seq<char>, query: Seq<char>, cap: nat) -> Seq<Seq<char>> {
    capped(first_seen(matching_names(lines_of(body), query)), cap)
}

/// The entries that a scan of the page `body` for `query` gives.
pub open spec fn catalog_entries(body: Seq<char>, query: Seq<char>, cap: nat) -> Seq<EntryView> {
    catalog_names(body, query, cap).map_values(|name: Seq<char>| entry_for(name))
}

/// No name stands twice among the names first seen.
pub proof fn lemma_first_seen_distinct(names: Seq<Seq<char>>)
    ensures
        forall|i: int, j: int|
            0 <= i < j < first_seen(names).len() ==> first_seen(names)[i] != first_seen(names)[j],
    decreases names.len(),
{
    if names.len() > 0 {
        lemma_first_seen_distinct(names.drop_last());
        let rest = first_seen(names.drop_last());
        assert forall|i: int| 0 <= i < rest.len() && !rest.contains(names.last()) implies rest[i]
            != names.last() by {
            if rest[i] == names.last() {
                assert(rest.contains(names.last()));
            }
        }
    }
}

/// Nothing is lost among the names first seen: they hold exactly the names
/// that the list holds.
pub proof fn lemma_first_seen_keeps_all(names: Seq<Seq<char>>, name: Seq<char>)
    ensures
        first_seen(names).contains(name) <==> names.contains(name),
    decreases names.len(),
{
    if names.len() > 0 {
        let front = names.drop_last();
        let rest = first_seen(front);
        lemma_first_seen_keeps_all(front, name);
        if names.contains(name) {
            let i = choose|i: int| 0 <= i < names.len() && names[i] == name;
            if i < names.len() - 1 {
                assert(front[i] == name);
                assert(front.contains(name));
            }
            if !rest.contains(names.last()) {
                assert(rest.push(names.last())[rest.len() as int] == names.last());
                if rest.contains(name) {
                    let j = choose|j: int| 0 <= j < rest.len() && rest[j] == name;
                    assert(rest.push(names.last())[j] == name);
                }
            }
        }
        if first_seen(names).contains(name) {
            let j = choose|j: int| 0 <= j < first_seen(names).len() && first_seen(names)[j] == name;
            if rest.contains(names.last()) || j < rest.len() {
                assert(rest[j] == name);
                assert(rest.contains(name));
                let i = choose|i: int| 0 <= i < front.len() && front[i] == name;
                assert(names[i] == name);
            } else {
                assert(names[names.len() - 1] == name);
            }
        }
    }
}

/// A scan gives no more names than its cap, and none of them twice,
/// however often the page repeats an entry.
pub proof fn lemma_catalog_names_distinct(body: Seq<char>, query: Seq<char>, cap: nat)
    ensures
        catalog_names(body, query, cap).len() <= cap,
        catalog_entries(body, query, cap).len() <= cap,
        forall|i: int, j: int|
            0 <= i < j < catalog_names(body, query, cap).len() ==> catalog_names(
                body,
                query,
                cap,
            )[i] != catalog_names(body, query, cap)[j],
        forall|i: int, j: int|
            0 <= i < j < catalog_entries(body, query, cap).len() ==> catalog_entries(
                body,
                query,
                cap,
            )[i].name != catalog_entries(body, query, cap)[j].name,
{
    lemma_first_seen_distinct(matching_names(lines_of(body), query));
}

/// Whether `name`, in lower case, contains `query`, in lower case.
pub fn lower_name_contains(lower_name: &Vec<char>, lower_query: &Vec<char>) -> (yes: bool)
    ensures
        yes == contains_text(lower_name@, lower_query@),
{
    find_from(lower_name, lower_query, 0).is_some()
}

/// Whether `name` matches `query`.
pub fn matches_query(name: &str, query: &str) -> (yes: bool)
    ensures
        yes == name_matches(name@, query@),
{
    if query.is_empty() {
        true
    } else {
        let lower_name = chars_of(to_lowercase(name).as_str());
        let lower_query = chars_of(to_lowercase(query).as_str());
        lower_name_contains(&lower_name, &lower_query)
    }
}

/// Whether `name` is among `names`.
fn seen(names: &Vec<String>, name: &String) -> (yes: bool)
    ensures
        yes == texts_view(names@).contains(name@),
{
    let mut i: usize = 0;
    while i < names.len()
        invariant
            i <= names@.len(),
            forall|j: int| 0 <= j < i ==> texts_view(names@)[j] != name@,
        decreases names@.len() - i,
    {
        if names[i] == *name {
            assert(texts_view(names@)[i as int] == name@);
            return true;
        }
        i += 1;
    }
    false
}

/// Scans the catalog page `body` for the entries that match `query`: each
/// once, in the order first seen, `cap` at most.
pub fn scan_catalog(body: &str, query: &str, cap: usize) -> (entries: Vec<OnlineModel>)
    ensures
        entries_view(entries@) == catalog_entries(body@, query@, cap as nat),
        entries@.len() <= cap,
        forall|i: int, j: int|
            0 <= i < j < entries@.len() ==> entries@[i]@.name != entries@[j]@.name,
{
    let chars = chars_of(body);
    let lines = split_lines(&chars);
    let library = chars_of("/library/");
    let anchor = chars_of("<a ");
    let mut names: Vec<String> = Vec::new();
    let mut i: usize = 0;
    let ghost all = lines_view(lines@);
    proof {
        assert(texts_view(names@) =~= Seq::<Seq<char>>::empty());
        assert(all.subrange(0, 0) =~= Seq::<Seq<char>>::empty());
    }
    while i < lines.len()
        invariant
            i <= lines@.len(),
            all == lines_view(lines@),
            library@ == library_prefix(),
            anchor@ == anchor_start(),
            texts_view(names@) == first_seen(matching_names(all.subrange(0, i as int), query@)),
        decreases lines@.len() - i,
    {
        let ghost before = texts_view(names@);
        let ghost found_before = matching_names(all.subrange(0, i as int), query@);
        proof {
            assert(all.subrange(0, i + 1).drop_last() =~= all.subrange(0, i as int));
            assert(all.subrange(0, i + 1).last() == lines@[i as int]@);
        }
        let line = &lines[i];
        if find_from(line, &library, 0).is_some() && find_from(line, &anchor, 0).is_some() {
            match model_name_in(line) {
                Some(name) => {
                    if matches_query(name.as_str(), query) {
                        proof {
                            assert(found_before.push(name@).drop_last() =~= found_before);
                        }
                        if !seen(&names, &name) {
                            names.push(name);
                            assert(texts_view(names@) =~= before.push(name@));
                        }
                    }
                },
                None => {},
            }
        }
        i += 1;
    }
    proof {
        assert(all.subrange(0, i as int) =~= all);
        lemma_catalog_names_distinct(body@, query@, cap as nat);
    }
    let count: usize = if cap < names.len() {
        cap
    } else {
        names.len()
    };
    let mut entries: Vec<OnlineModel> = Vec::new();
    let mut k: usize = 0;
    while k < count
        invariant
            k <= count <= names@.len(),
            entries@.len() == k,
            forall|j: int| 0 <= j < k ==> (#[trigger] entries@[j])@ == entry_for(names@[j]@),
        decreases count - k,
    {
        let name = names[k].clone();
        let url = String::from_str("https://ollama.com/library/").concat(name.as_str());
        entries.push(OnlineModel { name, description: None, url });
        k += 1;
    }
    assert(entries_view(entries@) =~= catalog_entries(body@, query@, cap as nat));
    assert forall|i: int, j: int| 0 <= i < j < entries@.len() implies entries@[i]@.name
        != entries@[j]@.name by {
        assert(entries_view(entries@)[i] == entries@[i]@);
        assert(entries_view(entries@)[j] == entries@[j]@);
    }
    entries
}

/// The most entries that a keyword search gives.
pub const SEARCH_CAP: usize = 50;

/// The most entries that the popular listing gives.
pub const POPULAR_CAP: usize = 30;

/// The scanner of the remote catalog.
#[derive(Debug)]
pub struct ModelSearch {}

impl ModelSearch {
    /// A scanner.
    pub fn new() -> (search: Self) {
        ModelSearch {  }
    }

    /// The address of the page that a keyword search scans.
    pub fn search_url(&self) -> (url: String)
        ensures
            url@ == catalog_url(),
    {
        String::from_str("https://ollama.com/library")
    }

    /// The address of the page that the popular listing scans.
    pub fn popular_url(&self) -> (url: String)
        ensures
            url@ == popular_url(),
    {
        String::from_str("https://ollama.com/library?sort=popular")
    }

    /// The entries of the page `body` whose names contain `query`, letter
    /// case set aside: each once, in the order first seen, 50 at most.
    pub fn search_online(&self, body: &str, query: &str) -> (entries: Vec<OnlineModel>)
        ensures
            entries_view(entries@) == catalog_entries(body@, query@, SEARCH_CAP as nat),
            entries@.len() <= SEARCH_CAP,
            forall|i: int, j: int|
                0 <= i < j < entries@.len() ==> entries@[i]@.name != entries@[j]@.name,
    {
        scan_catalog(body, query, SEARCH_CAP)
    }

    /// The entries of the page `body`: each once, in the order first seen,
    /// 30 at most.
    pub fn get_popular_models(&self, body: &str) -> (entries: Vec<OnlineModel>)
        ensures
            entries_view(entries@) == catalog_entries(body@, Seq::empty(), POPULAR_CAP as nat),
            entries@.len() <= POPULAR_CAP,
            forall|i: int, j: int|
                0 <= i < j < entries@.len() ==> entries@[i]@.name != entries@[j]@.name,
    {
        let entries = scan_catalog(body, "", POPULAR_CAP);
        proof {
            reveal_strlit("");
            assert(""@ =~= Seq::<char>::empty());
        }
        entries
    }
}


} // verus!
