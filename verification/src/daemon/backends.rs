//! File backends: plain paths, and URIs that GVFS (GNOME) or KIO (KDE) serve.
//!
//! A file to send may be named by a URI. It is then read into a temporary
//! file by one of the desktop's tools, tried in turn. The place for received
//! files may be a URI too; a finished file is then copied there by a tool.
use crate::base::paths;
use crate::base::store;
use crate::base::Error;
use crate::plugins::battery;
use crate::text;
use vstd::prelude::*;

verus! {

/// Directory below the data directory that receives files when nothing is
/// configured.
pub const DEFAULT_SAVE_DIR: &'static str = "downloads";

/// Key under which the receive destination is configured.
pub const SAVE_DIR_KEY: &'static str = "transfer.save_dir";

/// Where received files should land; `S` is the type of its texts.
#[derive(Debug, PartialEq, Eq)]
pub enum SaveTarget<S = String> {
    /// Plain local directory; files are written here directly.
    Local(S),
    /// URI; files are staged locally and copied there.
    Uri(S),
}

impl View for SaveTarget<String> {
    type V = SaveTarget<Seq<char>>;

    open spec fn view(&self) -> SaveTarget<Seq<char>> {
        match self {
            SaveTarget::Local(s) => SaveTarget::Local(s@),
            SaveTarget::Uri(s) => SaveTarget::Uri(s@),
        }
    }
}

impl Clone for SaveTarget<String> {
    fn clone(&self) -> (r: Self)
        ensures
            r@ == self@,
    {
        match self {
            SaveTarget::Local(s) => SaveTarget::Local(s.clone()),
            SaveTarget::Uri(s) => SaveTarget::Uri(s.clone()),
        }
    }
}

/// `raw` without surrounding white space, and with the home directory in
/// place of a leading `~`. A `~` that a name follows stays.
pub open spec fn expanded(raw: Seq<char>, home: Option<Seq<char>>) -> Seq<char> {
    let path = text::trimmed(raw);
    match home {
        Some(h) if path == "~"@ => h,
        Some(h) if text::has_prefix(path, "~/"@) => paths::below(
            h,
            path.skip("~/"@.len() as int),
        ),
        _ => path,
    }
}

/// Expand a leading `~` to the home directory.
pub fn expand_tilde(raw: &str, home: Option<&str>) -> (r: String)
    ensures
        r@ == expanded(raw@, store::str_view(home)),
{
    let path = text::trim(raw);
    if let Some(h) = home {
        if text::same(path.as_str(), "~") {
            return h.to_owned();
        }
        if let Some(rest) = text::strip_prefix(path.as_str(), "~/") {
            return paths::join(h, rest.as_str());
        }
    }
    path
}

/// What a path or URI names, `~` expanded: a `file://` URI is the path behind
/// the prefix, another text with `://` is a URI, any other text is a path.
pub open spec fn located(raw: Seq<char>, home: Option<Seq<char>>) -> SaveTarget<Seq<char>> {
    let path = text::trimmed(raw);
    if text::has_prefix(path, "file://"@) {
        SaveTarget::Local(expanded(path.skip("file://"@.len() as int), home))
    } else if text::contains(path, "://"@) {
        SaveTarget::Uri(path)
    } else {
        SaveTarget::Local(expanded(path, home))
    }
}

/// Reduce a user-configured destination to a [`SaveTarget`].
pub fn resolve_save_dir(raw: &str, home: Option<&str>) -> (r: SaveTarget)
    ensures
        r@ == located(raw@, store::str_view(home)),
{
    let trimmed = text::trim(raw);
    if let Some(rest) = text::strip_prefix(trimmed.as_str(), "file://") {
        return SaveTarget::Local(expand_tilde(rest.as_str(), home));
    }
    if text::contains_text(trimmed.as_str(), "://") {
        return SaveTarget::Uri(trimmed);
    }
    SaveTarget::Local(expand_tilde(trimmed.as_str(), home))
}

/// Whether a destination is configured: white space alone is none.
pub open spec fn is_configured(stored: Option<Seq<char>>) -> bool {
    match stored {
        Some(s) => text::trimmed(s).len() > 0,
        None => false,
    }
}

/// The configured destination, or the default directory below the data
/// directory where none is configured.
pub open spec fn configured_dir(stored: Option<Seq<char>>, data_dir: Seq<char>) -> Seq<char> {
    if is_configured(stored) {
        stored->0
    } else {
        paths::below(data_dir, DEFAULT_SAVE_DIR@)
    }
}

/// Picks the configured destination.
pub fn configured_save_dir(stored: Option<String>, data_dir: &str) -> (r: String)
    ensures
        r@ == configured_dir(battery::optional_text(stored), data_dir@),
{
    if let Some(s) = stored {
        if !text::trim(s.as_str()).as_str().is_empty() {
            return s;
        }
    }
    paths::join(data_dir, DEFAULT_SAVE_DIR)
}

/// Where received files land: where the configured destination leads, else
/// in the default directory.
pub open spec fn save_target_of(
    stored: Option<Seq<char>>,
    home: Option<Seq<char>>,
    data_dir: Seq<char>,
) -> SaveTarget<Seq<char>> {
    if is_configured(stored) {
        located(stored->0, home)
    } else {
        SaveTarget::Local(configured_dir(stored, data_dir))
    }
}

/// Picks where received files land.
pub fn save_target(stored: Option<String>, home: Option<&str>, data_dir: &str) -> (r: SaveTarget)
    ensures
        r@ == save_target_of(battery::optional_text(stored), store::str_view(home), data_dir@),
{
    if let Some(s) = &stored {
        if !text::trim(s.as_str()).as_str().is_empty() {
            return resolve_save_dir(s.as_str(), home);
        }
    }
    SaveTarget::Local(configured_save_dir(stored, data_dir))
}

/// The directory that files are staged in: the target itself where it is
/// local.
pub open spec fn staging_of(target: SaveTarget<Seq<char>>, temp_dir: Seq<char>) -> Seq<char> {
    match target {
        SaveTarget::Local(dir) => dir,
        SaveTarget::Uri(_) => paths::below(temp_dir, "handfast-received"@),
    }
}

/// Picks the directory that files are staged in.
pub fn staging_dir(target: &SaveTarget, temp_dir: &str) -> (r: String)
    ensures
        r@ == staging_of(target@, temp_dir@),
{
    match target {
        SaveTarget::Local(dir) => dir.clone(),
        SaveTarget::Uri(_) => paths::join(temp_dir, "handfast-received"),
    }
}

/// What a file to send is named by: a local path, or a URI that has to be
/// read into a temporary file. Paths and `file://` URIs need no tool.
pub fn source_of(input: &str, home: Option<&str>) -> (r: SaveTarget)
    ensures
        r@ == located(input@, store::str_view(home)),
{
    resolve_save_dir(input, home)
}

/// `n` in hexadecimal, without leading zeros.
pub open spec fn hex_number(n: nat) -> Seq<char>
    decreases n,
{
    if n < 16 {
        seq![text::digit(n as int)]
    } else {
        hex_number(n / 16).push(text::digit(n as int % 16))
    }
}

fn hex_number_text(n: u32) -> (r: String)
    ensures
        r@ == hex_number(n as nat),
    decreases n,
{
    let mut out = if n < 16 {
        String::new()
    } else {
        hex_number_text(n / 16)
    };
    out.push(text::digit_char((n % 16) as u8));
    assert(n < 16 ==> out@ =~= seq![text::digit(n as int)]);
    out
}

/// The name of the temporary file that a URI is read into.
pub fn source_temp_name(pid: u32, counter: u64, nanos: u32) -> (r: String)
    ensures
        r@ == "handfast-src-"@ + text::decimal(pid as nat) + "-"@ + text::decimal(counter as nat)
            + "-"@ + hex_number(nanos as nat),
{
    "handfast-src-".to_owned().concat(text::decimal_text(pid as u128).as_str()).concat("-").concat(
        text::decimal_text(counter as u128).as_str(),
    ).concat("-").concat(hex_number_text(nanos).as_str())
}

/// The tools that read a URI, in the order in which they are tried.
pub open spec fn source_tools() -> Seq<Seq<char>> {
    seq!["gio"@, "gvfs-cat"@, "kioclient5"@]
}

/// The tools that copy into a URI, in the order in which they are tried.
pub open spec fn copy_tools() -> Seq<Seq<char>> {
    seq!["gio"@, "kioclient5"@]
}

/// How a tool did.
#[derive(Debug, Clone, PartialEq, Eq)]
pub enum ToolOutcome<S = String> {
    /// The tool is not installed.
    Absent,
    /// The tool did its work.
    Worked,
    /// The tool is installed and failed, with this exit status.
    Failed(S),
}

impl View for ToolOutcome<String> {
    type V = ToolOutcome<Seq<char>>;

    open spec fn view(&self) -> ToolOutcome<Seq<char>> {
        match self {
            ToolOutcome::Absent => ToolOutcome::Absent,
            ToolOutcome::Worked => ToolOutcome::Worked,
            ToolOutcome::Failed(s) => ToolOutcome::Failed(s@),
        }
    }
}

/// What a list of outcomes says.
pub open spec fn outcomes_view(v: Seq<ToolOutcome>) -> Seq<ToolOutcome<Seq<char>>> {
    v.map_values(|o: ToolOutcome| o@)
}

/// What the outcomes so far lead to.
pub enum ChainView {
    /// Try the tool at this position.
    Try(nat),
    /// The tool at this position did the work.
    Done(nat),
    /// No tool did; this is why.
    GaveUp(Seq<char>),
}

/// What a failed tool is reported as.
pub open spec fn failure_text(tool: Seq<char>, verb: Seq<char>, status: Seq<char>) -> Seq<char> {
    tool + " "@ + verb + " failed with "@ + status
}

/// The report on the last tool that failed, or `none` where all were absent.
pub open spec fn last_failure(
    tools: Seq<Seq<char>>,
    verb: Seq<char>,
    outcomes: Seq<ToolOutcome<Seq<char>>>,
    none: Seq<char>,
) -> Seq<char>
    decreases outcomes.len(),
{
    if outcomes.len() == 0 {
        none
    } else {
        match outcomes.last() {
            ToolOutcome::Failed(status) => failure_text(tools[outcomes.len() - 1], verb, status),
            _ => last_failure(tools, verb, outcomes.drop_last(), none),
        }
    }
}

/// Where a chain of tools stands after the outcomes so far: the first tool
/// that worked ends it, an absent or failing tool passes on to the next.
pub open spec fn chain(
    tools: Seq<Seq<char>>,
    verb: Seq<char>,
    outcomes: Seq<ToolOutcome<Seq<char>>>,
    none: Seq<char>,
) -> ChainView {
    if outcomes.len() > 0 && outcomes.len() <= tools.len() && outcomes.last()
        == ToolOutcome::<Seq<char>>::Worked {
        ChainView::Done((outcomes.len() - 1) as nat)
    } else if outcomes.len() < tools.len() {
        ChainView::Try(outcomes.len())
    } else {
        ChainView::GaveUp(last_failure(tools, verb, outcomes, none))
    }
}

/// What to do about a chain of tools.
#[derive(Debug, Clone, PartialEq, Eq)]
pub enum ToolStep {
    /// Try this tool.
    Try(&'static str),
    /// The work is done.
    Done,
    /// No tool did the work.
    GaveUp(Error),
}

/// The report on the last tool that failed.
fn last_failure_text(
    tools: &Vec<&'static str>,
    verb: &str,
    outcomes: &Vec<ToolOutcome>,
    none: &str,
) -> (r: String)
    requires
        outcomes@.len() <= tools@.len(),
    ensures
        r@ == last_failure(crate::plugins::literals(tools@), verb@, outcomes_view(outcomes@), none@),
{
    let ghost names = crate::plugins::literals(tools@);
    let ghost views = outcomes_view(outcomes@);
    let mut to: usize = outcomes.len();
    assert(views.take(to as int) =~= views);
    while to > 0
        invariant
            to <= outcomes.len(),
            outcomes@.len() <= tools@.len(),
            names == crate::plugins::literals(tools@),
            views == outcomes_view(outcomes@),
            last_failure(names, verb@, views, none@) == last_failure(
                names,
                verb@,
                views.take(to as int),
                none@,
            ),
        decreases to,
    {
        proof {
            assert(views.take(to as int).drop_last() =~= views.take(to - 1));
            assert(views.take(to as int).last() == outcomes@[to - 1]@);
        }
        if let ToolOutcome::Failed(status) = &outcomes[to - 1] {
            assert(names[to - 1] == tools@[to - 1]@);
            return tools[to - 1].to_owned().concat(" ").concat(verb).concat(
                " failed with ",
            ).concat(status.as_str());
        }
        to -= 1;
    }
    none.to_owned()
}

fn worked(outcome: &ToolOutcome) -> (r: bool)
    ensures
        r == (outcome@ == ToolOutcome::<Seq<char>>::Worked),
{
    match outcome {
        ToolOutcome::Worked => true,
        _ => false,
    }
}

/// The message of a source that no tool could read.
pub open spec fn unreadable_text(uri: Seq<char>, why: Seq<char>) -> Seq<char> {
    "cannot read non-local file URI '"@ + uri + "': "@ + why
}

/// The message of a destination that no tool could copy to.
pub open spec fn uncopied_text(uri: Seq<char>, why: Seq<char>) -> Seq<char> {
    "could not copy received file into '"@ + uri + "': "@ + why
}

/// The reason where no tool that reads is installed.
pub const NO_SOURCE_TOOL: &'static str =
    "no usable backend found (tried none of gio/gvfs-cat/kioclient5 installed)";

/// The reason where no tool that copies is installed.
pub const NO_COPY_TOOL: &'static str = "gio/kioclient5 unavailable";

/// What to do next to read a URI into a temporary file, after the outcomes of
/// the tools tried so far.
pub fn materialize_uri(uri: &str, outcomes: &Vec<ToolOutcome>) -> (r: ToolStep)
    requires
        outcomes@.len() <= source_tools().len(),
    ensures
        match chain(source_tools(), "cat"@, outcomes_view(outcomes@), NO_SOURCE_TOOL@) {
            ChainView::Try(n) => match r {
                ToolStep::Try(tool) => tool@ == source_tools()[n as int],
                _ => false,
            },
            ChainView::Done(_) => r is Done,
            ChainView::GaveUp(why) => match r {
                ToolStep::GaveUp(Error::Other(m)) => m@ == unreadable_text(uri@, why),
                _ => false,
            },
        },
{
    let tools: Vec<&'static str> = vec!["gio", "gvfs-cat", "kioclient5"];
    assert(crate::plugins::literals(tools@) =~= source_tools());
    let n = outcomes.len();
    if n > 0 && worked(&outcomes[n - 1]) {
        return ToolStep::Done;
    }
    if n < tools.len() {
        assert(crate::plugins::literals(tools@)[n as int] == tools@[n as int]@);
        return ToolStep::Try(tools[n]);
    }
    let why = last_failure_text(&tools, "cat", outcomes, NO_SOURCE_TOOL);
    ToolStep::GaveUp(
        Error::Other(
            "cannot read non-local file URI '".to_owned().concat(uri).concat("': ").concat(
                why.as_str(),
            ),
        ),
    )
}

/// A source that was made ready for transfer; `S` is the type of its paths.
#[derive(Debug, PartialEq, Eq)]
pub struct Materialized<S = String> {
    /// Path the daemon should open and stream.
    pub local: S,
    /// Temporary file to remove once the transfer finishes; none for plain
    /// local paths, which the caller owns.
    pub cleanup: Option<S>,
}

impl View for Materialized<String> {
    type V = Materialized<Seq<char>>;

    open spec fn view(&self) -> Materialized<Seq<char>> {
        Materialized {
            local: self.local@,
            cleanup: match self.cleanup {
                Some(path) => Some(path@),
                None => None,
            },
        }
    }
}

/// What to do about a source.
#[derive(Debug, PartialEq, Eq)]
pub enum SourceStep {
    /// Read the URI into the temporary file with this tool.
    Try(&'static str),
    /// The source can be opened.
    Ready(Materialized),
    /// The source cannot be had.
    Failed(Error),
}

/// What to do about a source, in words.
pub enum SourceView {
    /// Read the URI into the temporary file with this tool.
    Try(Seq<char>),
    /// The source can be opened.
    Ready(Materialized<Seq<char>>),
    /// The source cannot be had.
    Failed(Seq<char>),
}

/// What to do next to make a source ready: `is_file` says whether a local
/// path names a file, `temp` is the temporary file for a URI, and `outcomes`
/// are those of the tools tried so far.
pub open spec fn sourced(
    target: SaveTarget<Seq<char>>,
    is_file: bool,
    temp: Seq<char>,
    outcomes: Seq<ToolOutcome<Seq<char>>>,
) -> SourceView {
    match target {
        SaveTarget::Local(path) => if is_file {
            SourceView::Ready(Materialized { local: path, cleanup: None })
        } else {
            SourceView::Failed("file not found: "@ + path)
        },
        SaveTarget::Uri(uri) => match chain(source_tools(), "cat"@, outcomes, NO_SOURCE_TOOL@) {
            ChainView::Try(n) => SourceView::Try(source_tools()[n as int]),
            ChainView::Done(_) => SourceView::Ready(
                Materialized { local: temp, cleanup: Some(temp) },
            ),
            ChainView::GaveUp(why) => SourceView::Failed(unreadable_text(uri, why)),
        },
    }
}

/// A local file is opened where it is and never removed; what a tool read is
/// opened where the tool put it, and only that is removed afterwards. A file
/// that is not there, and a URI that no tool can read, are refused.
pub proof fn law_only_temporary_copies_are_removed(
    target: SaveTarget<Seq<char>>,
    is_file: bool,
    temp: Seq<char>,
    outcomes: Seq<ToolOutcome<Seq<char>>>,
)
    requires
        outcomes.len() <= source_tools().len(),
    ensures
        target matches SaveTarget::Local(path) ==> {
            &&& sourced(target, is_file, temp, outcomes) is Ready <==> is_file
            &&& is_file ==> sourced(target, is_file, temp, outcomes)->Ready_0.local == path
            &&& is_file ==> sourced(target, is_file, temp, outcomes)->Ready_0.cleanup is None
        },
        target is Uri ==> {
            &&& sourced(target, is_file, temp, outcomes) is Ready <==> outcomes.len() > 0
                && outcomes.last() is Worked
            &&& sourced(target, is_file, temp, outcomes) is Ready ==> sourced(
                target,
                is_file,
                temp,
                outcomes,
            )->Ready_0.local == temp
            &&& sourced(target, is_file, temp, outcomes) is Ready ==> sourced(
                target,
                is_file,
                temp,
                outcomes,
            )->Ready_0.cleanup == Some(temp)
            &&& outcomes.len() == 0 ==> sourced(target, is_file, temp, outcomes) is Try
        },
{
}

/// What to do next to make a source ready: `is_file` says whether a local
/// path names a file, `temp` is the temporary file for a URI, and `outcomes`
/// are those of the tools tried so far.
pub fn materialize_source(
    input: &str,
    home: Option<&str>,
    is_file: bool,
    temp: &str,
    outcomes: &Vec<ToolOutcome>,
) -> (r: SourceStep)
    requires
        outcomes@.len() <= source_tools().len(),
    ensures
        ({
            let view = sourced(
                located(input@, store::str_view(home)),
                is_file,
                temp@,
                outcomes_view(outcomes@),
            );
            match r {
                SourceStep::Try(tool) => view == SourceView::Try(tool@),
                SourceStep::Ready(m) => view == SourceView::Ready(m@),
                SourceStep::Failed(Error::Other(m)) => view == SourceView::Failed(m@),
                SourceStep::Failed(_) => false,
            }
        }),
{
    match source_of(input, home) {
        SaveTarget::Local(path) => if is_file {
            SourceStep::Ready(Materialized { local: path, cleanup: None })
        } else {
            SourceStep::Failed(Error::Other("file not found: ".to_owned().concat(path.as_str())))
        },
        SaveTarget::Uri(uri) => match materialize_uri(uri.as_str(), outcomes) {
            ToolStep::Try(tool) => SourceStep::Try(tool),
            ToolStep::Done => SourceStep::Ready(
                Materialized { local: temp.to_owned(), cleanup: Some(temp.to_owned()) },
            ),
            ToolStep::GaveUp(err) => SourceStep::Failed(err),
        },
    }
}

/// What to do next to copy a finished file into a URI, after the outcomes of
/// the tools tried so far. The local copy is to be removed when the work is
/// done, and only then.
pub fn move_into_uri(uri: &str, outcomes: &Vec<ToolOutcome>) -> (r: ToolStep)
    requires
        outcomes@.len() <= copy_tools().len(),
    ensures
        match chain(copy_tools(), "copy"@, outcomes_view(outcomes@), NO_COPY_TOOL@) {
            ChainView::Try(n) => match r {
                ToolStep::Try(tool) => tool@ == copy_tools()[n as int],
                _ => false,
            },
            ChainView::Done(_) => r is Done,
            ChainView::GaveUp(why) => match r {
                ToolStep::GaveUp(Error::Other(m)) => m@ == uncopied_text(uri@, why),
                _ => false,
            },
        },
{
    let tools: Vec<&'static str> = vec!["gio", "kioclient5"];
    assert(crate::plugins::literals(tools@) =~= copy_tools());
    let n = outcomes.len();
    if n > 0 && worked(&outcomes[n - 1]) {
        return ToolStep::Done;
    }
    if n < tools.len() {
        assert(crate::plugins::literals(tools@)[n as int] == tools@[n as int]@);
        return ToolStep::Try(tools[n]);
    }
    let why = last_failure_text(&tools, "copy", outcomes, NO_COPY_TOOL);
    ToolStep::GaveUp(
        Error::Other(
            "could not copy received file into '".to_owned().concat(uri).concat("': ").concat(
                why.as_str(),
            ),
        ),
    )
}

/// A tool that fails or is absent never ends a chain that has a tool left.
pub proof fn law_failing_tools_fall_through(
    tools: Seq<Seq<char>>,
    verb: Seq<char>,
    outcomes: Seq<ToolOutcome<Seq<char>>>,
    none: Seq<char>,
)
    requires
        outcomes.len() < tools.len(),
        outcomes.len() > 0 ==> outcomes.last() != ToolOutcome::<Seq<char>>::Worked,
    ensures
        chain(tools, verb, outcomes, none) == ChainView::Try(outcomes.len()),
        chain(tools, verb, outcomes.push(ToolOutcome::Worked), none) == ChainView::Done(
            outcomes.len(),
        ),
{
    assert(outcomes.push(ToolOutcome::Worked).last() == ToolOutcome::<Seq<char>>::Worked);
}

/// A file name below a URI.
pub open spec fn uri_child(uri: Seq<char>, file_name: Seq<char>) -> Seq<char> {
    text::trim_end_of(uri, seq!['/']) + "/"@ + file_name
}

/// A file name below a URI.
pub fn child_of_uri(uri: &str, file_name: &str) -> (r: String)
    ensures
        r@ == uri_child(uri@, file_name@),
{
    let slash: [char; 1] = ['/'];
    assert(slash@ =~= seq!['/']);
    text::trim_end_chars(uri, &slash).concat("/").concat(file_name)
}

/// Where a finished local file is to be copied to.
pub fn copy_destination(local: &str, uri: &str) -> (r: Result<String, Error>)
    ensures
        match (r, paths::file_name_of(local@)) {
            (Ok(path), Some(name)) => path@ == uri_child(uri@, name),
            (Err(Error::Other(m)), None) => m@ == "local staging file has no name"@,
            _ => false,
        },
{
    match paths::file_name(local) {
        Some(name) => Ok(child_of_uri(uri, name.as_str())),
        None => Err(Error::Other("local staging file has no name".to_owned())),
    }
}

/// The home directory stands in for a leading `~`: alone or in front of a
/// path. Any other path is taken as it is, and so is every path where no home
/// is known. `rest` neither begins nor ends with white space.
pub proof fn law_tilde_stands_for_home(home: Seq<char>, rest: Seq<char>)
    requires
        home.len() > 0,
        home.last() != '/',
        rest.len() > 0,
        rest[0] != '/',
        !text::white_space(rest[0]),
        !text::white_space(rest.last()),
    ensures
        expanded("~"@, Some(home)) == home,
        expanded("~/"@ + rest, Some(home)) == home + seq!['/'] + rest,
        expanded("~/"@ + rest, None) == "~/"@ + rest,
        rest[0] != '~' ==> expanded(rest, Some(home)) == rest,
{
    reveal_strlit("~");
    reveal_strlit("~/");
    let path = "~/"@ + rest;
    assert(path.last() == rest.last());
    assert(text::trimmed("~"@) == "~"@);
    assert(text::trimmed(path) == path);
    assert(text::trimmed(rest) == rest);
    assert(path.skip(2) =~= rest);
    assert(path.len() > 1 && "~"@.len() == 1);
    assert(text::has_prefix(path, "~/"@)) by {
        assert(path.take(2) =~= "~/"@);
    }
    if rest[0] != '~' {
        assert("~"@[0] == '~' && "~/"@[0] == '~');
        if text::has_prefix(rest, "~/"@) {
            assert(rest[0] == "~/"@[0]);
        }
    }
}

/// A text with a scheme is a URI and is kept as it is, but for a file URI,
/// which is the path behind the scheme; a text without a scheme is a path.
/// `path` neither begins nor ends with white space.
pub proof fn law_schemes_tell_uris_from_paths(path: Seq<char>, home: Option<Seq<char>>)
    requires
        path.len() > 0,
        !text::white_space(path[0]),
        !text::white_space(path.last()),
        path[0] != '~',
    ensures
        located("file://"@ + path, home) == SaveTarget::Local(path),
        text::contains(path, "://"@) && !text::has_prefix(path, "file://"@) ==> located(path, home)
            == SaveTarget::Uri(path),
        !text::contains(path, "://"@) && !text::has_prefix(path, "file://"@) ==> located(
            path,
            home,
        ) == SaveTarget::Local(path),
{
    reveal_strlit("file://");
    reveal_strlit("~");
    reveal_strlit("~/");
    let uri = "file://"@ + path;
    assert(uri.last() == path.last());
    assert(text::trimmed(uri) == uri);
    assert(text::trimmed(path) == path);
    assert(uri.skip(7) =~= path);
    assert(text::has_prefix(uri, "file://"@)) by {
        assert(uri.take(7) =~= "file://"@);
    }
    assert("~"@[0] == '~' && "~/"@[0] == '~');
    if text::has_prefix(path, "~/"@) {
        assert(path[0] == "~/"@[0]);
    }
}

/// Received files land where the user wants them, and in the default
/// directory where nothing but white space is configured. They are staged in
/// a local destination itself, and elsewhere for a URI.
pub proof fn law_files_land_where_configured(
    stored: Option<Seq<char>>,
    home: Option<Seq<char>>,
    data_dir: Seq<char>,
    temp_dir: Seq<char>,
    dir: Seq<char>,
)
    ensures
        stored is None || text::trimmed(stored->0).len() == 0 ==> save_target_of(
            stored,
            home,
            data_dir,
        ) == SaveTarget::Local(paths::below(data_dir, "downloads"@)),
        stored is Some && text::trimmed(stored->0).len() > 0 ==> save_target_of(
            stored,
            home,
            data_dir,
        ) == located(stored->0, home),
        staging_of(SaveTarget::Local(dir), temp_dir) == dir,
        staging_of(SaveTarget::Uri(dir), temp_dir) == paths::below(
            temp_dir,
            "handfast-received"@,
        ),
{
}

/// Tools are tried one after the other until one worked; where none did, the
/// reason is that of the last one that failed.
pub proof fn law_tools_are_tried_in_order(
    tools: Seq<Seq<char>>,
    verb: Seq<char>,
    outcomes: Seq<ToolOutcome<Seq<char>>>,
    none: Seq<char>,
    status: Seq<char>,
)
    requires
        outcomes.len() + 1 == tools.len(),
    ensures
        chain(tools, verb, outcomes.push(ToolOutcome::Failed(status)), none) == ChainView::GaveUp(
            tools[tools.len() - 1] + " "@ + verb + " failed with "@ + status,
        ),
        chain(tools, verb, outcomes.push(ToolOutcome::Absent), none) == ChainView::GaveUp(
            last_failure(tools, verb, outcomes, none),
        ),
        (forall|i: int| 0 <= i < outcomes.len() ==> (#[trigger] outcomes[i]) is Absent)
            ==> last_failure(tools, verb, outcomes, none) == none,
{
    assert(outcomes.push(ToolOutcome::Absent).drop_last() =~= outcomes);
    assert(outcomes.push(ToolOutcome::Absent).last() is Absent);
    assert(outcomes.push(ToolOutcome::Failed(status)).last() is Failed);
    if forall|i: int| 0 <= i < outcomes.len() ==> (#[trigger] outcomes[i]) is Absent {
        lemma_all_absent(tools, verb, outcomes, none);
    }
}

proof fn lemma_all_absent(
    tools: Seq<Seq<char>>,
    verb: Seq<char>,
    outcomes: Seq<ToolOutcome<Seq<char>>>,
    none: Seq<char>,
)
    requires
        forall|i: int| 0 <= i < outcomes.len() ==> (#[trigger] outcomes[i]) is Absent,
    ensures
        last_failure(tools, verb, outcomes, none) == none,
    decreases outcomes.len(),
{
    if outcomes.len() > 0 {
        let rest = outcomes.drop_last();
        assert forall|i: int| 0 <= i < rest.len() implies (#[trigger] rest[i]) is Absent by {
            assert(rest[i] == outcomes[i]);
        }
        assert(outcomes.last() == outcomes[outcomes.len() - 1]);
        lemma_all_absent(tools, verb, rest, none);
    }
}

/// A file below a URI is named behind exactly one slash.
pub proof fn law_uri_children_follow_one_slash(uri: Seq<char>, file_name: Seq<char>)
    requires
        uri.len() > 0,
        uri.last() != '/',
    ensures
        uri_child(uri, file_name) == uri + "/"@ + file_name,
        uri_child(uri + seq!['/'], file_name) == uri + "/"@ + file_name,
{
    let set = seq!['/'];
    assert(set[0] == '/');
    assert((uri + seq!['/']).drop_last() =~= uri);
    assert((uri + seq!['/']).last() == '/');
    assert(!set.contains(uri.last())) by {
        if set.contains(uri.last()) {
            let k = choose|k: int| 0 <= k < set.len() && set[k] == uri.last();
            assert(k == 0);
        }
    }
}

} // verus!
