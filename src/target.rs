//! Target identifiers, and the parser for the listings of `rustup target list`.
//!
//! A line that target-lexicon does not recognise as a triple is kept verbatim
//! as an [`TargetTriple::Uncoined`] identifier: parsing a listing never fails.
use vstd::prelude::*;
use vstd::string::*;
use crate::lexicon::{lexicon_canonical, lexicon_parse};
use crate::text::{contains, contains_text, ends_with, ends_with_text};
use crate::output::{extract_stdout, reports, stdout_model, CommandOutput, StdoutModel};
use crate::RustupTargetError;

verus! {

/// What an identifier is: the canonical text of a recognised triple, or the
/// text of one that was not recognised.
pub enum TripleModel {
    Coined(Seq<char>),
    Uncoined(Seq<char>),
}

/// What a listing entry is: its identifier and whether it is installed.
pub struct EntryModel {
    pub triple: TripleModel,
    pub installed: bool,
}

/// A triple that target-lexicon recognised, with the canonical text it renders to.
#[derive(Debug)]
pub struct CoinedTriple {
    triple: target_lexicon::Triple,
    text: String,
}

impl View for CoinedTriple {
    type V = Seq<char>;

    closed spec fn view(&self) -> Seq<char> {
        self.text@
    }
}

impl CoinedTriple {
    /// The structured triple: architecture, vendor, operating system,
    /// environment and binary format.
    pub fn triple(&self) -> &target_lexicon::Triple {
        &self.triple
    }

    /// The canonical text of the triple.
    pub fn text(&self) -> (r: &str)
        ensures
            r@ == self@,
    {
        self.text.as_str()
    }
}

/// One target identifier as rustup lists it.
#[derive(Debug)]
pub enum TargetTriple {
    /// Recognised by target-lexicon.
    Conied(CoinedTriple),
    /// Not recognised; the text is kept as it was.
    Uncoined(String),
}

impl View for TargetTriple {
    type V = TripleModel;

    open spec fn view(&self) -> TripleModel {
        match self {
            TargetTriple::Conied(c) => TripleModel::Coined(c@),
            TargetTriple::Uncoined(s) => TripleModel::Uncoined(s@),
        }
    }
}

/// The identifier that the text `s` stands for.
pub open spec fn triple_model(s: Seq<char>) -> TripleModel {
    match lexicon_canonical(s) {
        Some(c) => TripleModel::Coined(c),
        None => TripleModel::Uncoined(s),
    }
}

/// The text an identifier renders to.
pub open spec fn rendered(t: TripleModel) -> Seq<char> {
    match t {
        TripleModel::Coined(c) => c,
        TripleModel::Uncoined(s) => s,
    }
}

impl TargetTriple {
    /// Reads one identifier: a triple where target-lexicon recognises `s`, else
    /// `s` itself, kept verbatim.
    pub fn parse(s: &str) -> (r: TargetTriple)
        ensures
            r@ == triple_model(s@),
            lexicon_canonical(s@) is None ==> r@ == TripleModel::Uncoined(s@),
    {
        match lexicon_parse(s) {
            Some((triple, text)) => TargetTriple::Conied(CoinedTriple { triple, text }),
            None => TargetTriple::Uncoined(s.to_owned()),
        }
    }

    /// The text of the identifier, as `rustup target add` takes it.
    pub fn to_string(&self) -> (r: String)
        ensures
            r@ == rendered(self@),
    {
        match self {
            TargetTriple::Conied(c) => c.text.clone(),
            TargetTriple::Uncoined(s) => s.clone(),
        }
    }
}

impl std::str::FromStr for TargetTriple {
    type Err = target_lexicon::ParseError;

    /// Reads one identifier as [`TargetTriple::parse`] does; it never fails.
    fn from_str(s: &str) -> Result<TargetTriple, target_lexicon::ParseError> {
        Ok(TargetTriple::parse(s))
    }
}

/// One entry of a listing: a target and whether it is installed.
#[derive(Debug)]
pub struct Target {
    pub triple: TargetTriple,
    pub installed: bool,
}

impl View for Target {
    type V = EntryModel;

    open spec fn view(&self) -> EntryModel {
        EntryModel { triple: self.triple@, installed: self.installed }
    }
}

/// The words that end the text of an entry.
pub open spec fn installed_text(installed: bool) -> Seq<char> {
    if installed {
        "true"@
    } else {
        "false"@
    }
}

/// The text of an entry: `<triple> - installed: <true|false>`.
pub open spec fn entry_text(e: EntryModel) -> Seq<char> {
    rendered(e.triple) + " - installed: "@ + installed_text(e.installed)
}

impl Target {
    /// The entry as text, such as `aarch64-apple-ios - installed: true`.
    pub fn to_string(&self) -> (r: String)
        ensures
            r@ == entry_text(self@),
    {
        let mut r = self.triple.to_string();
        r.append(" - installed: ");
        if self.installed {
            r.append("true");
        } else {
            r.append("false");
        }
        r
    }
}

/// The marker that rustup puts after an installed target.
pub open spec fn installed_marker() -> Seq<char> {
    " (installed)"@
}

/// The word that marks a line as one that is left out of a listing.
pub open spec fn excluded_word() -> Seq<char> {
    "preview"@
}

/// A line without a carriage return that ends it.
pub open spec fn trim_cr(l: Seq<char>) -> Seq<char> {
    if l.len() > 0 && l.last() == '\r' {
        l.drop_last()
    } else {
        l
    }
}

/// The lines of `s` from position `i` on, the current one having begun at
/// `start`: lines end at `'\n'`, a `'\r'` before it is dropped, and a last
/// line without `'\n'` counts when it is not empty.
pub open spec fn lines_from(s: Seq<char>, i: int, start: int) -> Seq<Seq<char>>
    decreases s.len() - i,
{
    if i >= s.len() {
        if start < s.len() {
            seq![s.subrange(start, s.len() as int)]
        } else {
            seq![]
        }
    } else if s[i] == '\n' {
        seq![trim_cr(s.subrange(start, i))] + lines_from(s, i + 1, i + 1)
    } else {
        lines_from(s, i + 1, start)
    }
}

/// The lines of `s`.
pub open spec fn lines(s: Seq<char>) -> Seq<Seq<char>> {
    lines_from(s, 0, 0)
}

/// Whether a listing line marks its target as installed.
pub open spec fn line_installed(l: Seq<char>) -> bool {
    ends_with(l, installed_marker())
}

/// A listing line without its installed marker.
pub open spec fn line_body(l: Seq<char>) -> Seq<char> {
    if line_installed(l) {
        l.subrange(0, l.len() - installed_marker().len())
    } else {
        l
    }
}

/// Whether a listing line is left out of the parsed listing.
pub open spec fn line_excluded(l: Seq<char>) -> bool {
    contains(line_body(l), excluded_word())
}

/// The entry that a listing line gives, if it is not left out.
pub open spec fn line_entry(l: Seq<char>) -> Option<EntryModel> {
    if line_excluded(l) {
        None
    } else {
        Some(EntryModel { triple: triple_model(line_body(l)), installed: line_installed(l) })
    }
}

/// The entries that the lines `ls` give, in their order.
pub open spec fn entries_of(ls: Seq<Seq<char>>) -> Seq<EntryModel>
    decreases ls.len(),
{
    if ls.len() == 0 {
        seq![]
    } else {
        let prev = entries_of(ls.drop_last());
        match line_entry(ls.last()) {
            Some(e) => prev.push(e),
            None => prev,
        }
    }
}

/// The entries of the listing `s`.
pub open spec fn parsed_listing(s: Seq<char>) -> Seq<EntryModel> {
    entries_of(lines(s))
}

/// What a sequence of targets is.
pub open spec fn entries_view(v: Seq<Target>) -> Seq<EntryModel> {
    v.map_values(|t: Target| t@)
}

/// A line without the carriage return that ends it.
fn trim_carriage_return(l: &str) -> (r: &str)
    ensures
        r@ == trim_cr(l@),
{
    let n = l.unicode_len();
    if n > 0 && l.get_char(n - 1) == '\r' {
        let r = l.substring_char(0, n - 1);
        assert(r@ =~= l@.drop_last());
        r
    } else {
        l
    }
}

/// Appends the entry that one listing line gives, if it gives one.
fn push_entry(targets: &mut Vec<Target>, line: &str)
    ensures
        entries_view(final(targets)@) == match line_entry(line@) {
            Some(e) => entries_view(old(targets)@).push(e),
            None => entries_view(old(targets)@),
        },
{
    let installed = ends_with_text(line, " (installed)");
    let body = if installed {
        let n = line.unicode_len();
        let m = " (installed)".unicode_len();
        line.substring_char(0, n - m)
    } else {
        line
    };
    assert(body@ == line_body(line@));
    if contains_text(body, "preview") {
        return;
    }
    let triple = TargetTriple::parse(body);
    let ghost before = targets@;
    targets.push(Target { triple, installed });
    assert(entries_view(targets@) =~= entries_view(before).push(targets@.last()@));
}

/// Parses the output of `rustup target list`: one entry per line, in the
/// order of the lines, installed where the line ends in ` (installed)`;
/// lines that hold `preview` are left out. It never fails.
pub fn parse_rustup_triple_list(list: &str) -> (r: Result<Vec<Target>, RustupTargetError>)
    ensures
        match r {
            Ok(v) => entries_view(v@) == parsed_listing(list@),
            Err(_) => false,
        },
{
    let n = list.unicode_len();
    let mut targets: Vec<Target> = Vec::new();
    let mut start: usize = 0;
    let mut i: usize = 0;
    let ghost mut done: Seq<Seq<char>> = seq![];
    assert(entries_view(targets@) =~= entries_of(done));
    while i < n
        invariant
            n == list@.len(),
            start <= i <= n,
            lines(list@) == done + lines_from(list@, i as int, start as int),
            entries_view(targets@) == entries_of(done),
        decreases n - i,
    {
        if list.get_char(i) == '\n' {
            let raw = list.substring_char(start, i);
            let line = trim_carriage_return(raw);
            let ghost rest = lines_from(list@, i + 1, i + 1);
            proof {
                let d2 = done.push(line@);
                assert(d2.drop_last() =~= done);
                assert(done + lines_from(list@, i as int, start as int) =~= d2 + rest);
                done = d2;
            }
            push_entry(&mut targets, line);
            start = i + 1;
        }
        i = i + 1;
    }
    if start < n {
        let line = list.substring_char(start, n);
        proof {
            let d2 = done.push(line@);
            assert(d2.drop_last() =~= done);
            assert(done + lines_from(list@, n as int, start as int) =~= d2);
            done = d2;
        }
        push_entry(&mut targets, line);
    } else {
        assert(done + lines_from(list@, n as int, start as int) =~= done);
    }
    Ok(targets)
}

/// What a listing call gives back for how its process went.
pub open spec fn listing_result(
    launched: Result<CommandOutput, std::io::Error>,
    r: Result<Vec<Target>, RustupTargetError>,
) -> bool {
    match launched {
        Err(e) => r matches Err(RustupTargetError::ProcessFailed(e2)) && e2 == e,
        Ok(o) => match stdout_model(o) {
            StdoutModel::Text(t) => match r {
                Ok(v) => entries_view(v@) == parsed_listing(t),
                Err(_) => false,
            },
            m => match r {
                Ok(_) => false,
                Err(e) => reports(e, m),
            },
        },
    }
}

/// The targets of a listing, from how its process went: a process that could
/// not start gives `ProcessFailed`, a failed or undecodable output its error,
/// and an output that succeeded its parsed listing.
pub fn read_targets(launched: Result<CommandOutput, std::io::Error>) -> (r: Result<
    Vec<Target>,
    RustupTargetError,
>)
    ensures
        listing_result(launched, r),
{
    let output = match launched {
        Ok(output) => output,
        Err(e) => return Err(RustupTargetError::ProcessFailed(e)),
    };
    let out = match extract_stdout(&output) {
        Ok(out) => out,
        Err(e) => return Err(e),
    };
    parse_rustup_triple_list(out.as_str())
}

/// Whether an install went well, from how its process went: a process that
/// could not start gives `ProcessFailed`, a failed or undecodable output its
/// error; what a successful one printed is dropped.
pub fn confirm_install(launched: Result<CommandOutput, std::io::Error>) -> (r: Result<
    (),
    RustupTargetError,
>)
    ensures
        match launched {
            Err(e) => r matches Err(RustupTargetError::ProcessFailed(e2)) && e2 == e,
            Ok(o) => match stdout_model(o) {
                StdoutModel::Text(_) => r is Ok,
                m => match r {
                    Ok(_) => false,
                    Err(e) => reports(e, m),
                },
            },
        },
{
    let output = match launched {
        Ok(output) => output,
        Err(e) => return Err(RustupTargetError::ProcessFailed(e)),
    };
    match extract_stdout(&output) {
        Ok(_) => Ok(()),
        Err(e) => Err(e),
    }
}

/// The texts of a sequence of strings.
pub open spec fn texts(v: Seq<String>) -> Seq<Seq<char>> {
    v.map_values(|s: String| s@)
}

/// The arguments of rustup that list the targets: all of them, or the
/// installed ones only.
pub fn list_arguments(installed_only: bool) -> (r: Vec<String>)
    ensures
        texts(r@) == if installed_only {
            seq!["target"@, "list"@, "--installed"@]
        } else {
            seq!["target"@, "list"@]
        },
{
    let mut r: Vec<String> = Vec::new();
    r.push("target".to_owned());
    r.push("list".to_owned());
    if installed_only {
        r.push("--installed".to_owned());
    }
    assert(texts(r@) =~= if installed_only {
        seq!["target"@, "list"@, "--installed"@]
    } else {
        seq!["target"@, "list"@]
    });
    r
}

/// The arguments of rustup that install `list`, each identifier rendered to
/// its text; `None` for an empty list, where there is nothing to run.
pub fn install_arguments(list: &[TargetTriple]) -> (r: Option<Vec<String>>)
    ensures
        r is None <==> list@.len() == 0,
        r is Some ==> texts(r.unwrap()@) == seq!["target"@, "add"@] + list@.map_values(
            |t: TargetTriple| rendered(t@),
        ),
{
    if list.len() == 0 {
        return None;
    }
    let mut r: Vec<String> = Vec::new();
    r.push("target".to_owned());
    r.push("add".to_owned());
    let mut i: usize = 0;
    while i < list.len()
        invariant
            i <= list@.len(),
            texts(r@) == seq!["target"@, "add"@] + list@.subrange(0, i as int).map_values(
                |t: TargetTriple| rendered(t@),
            ),
        decreases list@.len() - i,
    {
        let ghost before = r@;
        r.push(list[i].to_string());
        assert(list@.subrange(0, i + 1) =~= list@.subrange(0, i as int).push(list@[i as int]));
        assert(texts(r@) =~= texts(before).push(rendered(list@[i as int]@)));
        i = i + 1;
    }
    assert(list@.subrange(0, i as int) =~= list@);
    Some(r)
}

} // verus!
