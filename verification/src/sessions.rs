//! Choosing among stored sessions: by identifier or by a regular expression
//! over identifiers, and the lines that present them.

use crate::text::{byte_count, byte_len, same_text};
use vstd::prelude::*;
use vstd::utf8::{decode_utf8, encode_utf8, is_char_boundary};

verus! {

// ---------------------------------------------------------------------------
// Regular expressions
// ---------------------------------------------------------------------------
/// `regex::Regex`, a compiled regular expression. Nothing inside it is
/// visible here.
#[verifier::external_type_specification]
#[verifier::external_body]
pub struct ExRegex(regex::Regex);

/// `regex::Error`, the reason why a pattern did not compile. Nothing inside
/// it is visible here.
#[verifier::external_type_specification]
#[verifier::external_body]
pub struct ExRegexError(regex::Error);

/// What `regex::Regex::new` returns for a pattern: the compiled expression,
/// or the error. Nothing is claimed about which patterns compile.
pub uninterp spec fn regex_new(pattern: Seq<char>) -> Result<regex::Regex, regex::Error>;

/// What `regex::Regex::is_match` returns: whether the expression matches
/// anywhere in the text. Nothing is claimed about which texts match.
pub uninterp spec fn regex_is_match(re: regex::Regex, haystack: Seq<char>) -> bool;

/// Calls `regex::Regex::new`, which compiles the pattern or says why it
/// cannot. The contract only claims that what comes back depends on the
/// pattern alone.
#[verifier::external_body]
fn compile(pattern: &str) -> (r: Result<regex::Regex, regex::Error>)
    ensures
        r == regex_new(pattern@),
{
    regex::Regex::new(pattern)
}

/// Calls `regex::Regex::is_match`. The contract only claims that what comes
/// back depends on the expression and the text alone.
#[verifier::external_body]
fn is_match(re: &regex::Regex, haystack: &str) -> (b: bool)
    ensures
        b == regex_is_match(*re, haystack@),
{
    re.is_match(haystack)
}

// ---------------------------------------------------------------------------
// Sessions
// ---------------------------------------------------------------------------
/// What is known of a stored session.
#[derive(Debug, PartialEq, Eq)]
pub struct SessionInfo {
    pub id: String,
    pub path: String,
    pub description: String,
    pub modified: String,
}

/// What a `SessionInfo` stands for.
pub struct SessionInfoView {
    pub id: Seq<char>,
    pub path: Seq<char>,
    pub description: Seq<char>,
    pub modified: Seq<char>,
}

impl View for SessionInfo {
    type V = SessionInfoView;

    open spec fn view(&self) -> SessionInfoView {
        SessionInfoView {
            id: self.id@,
            path: self.path@,
            description: self.description@,
            modified: self.modified@,
        }
    }
}

/// The views of a list of sessions.
pub open spec fn session_views(sessions: Seq<SessionInfo>) -> Seq<SessionInfoView> {
    Seq::new(sessions.len(), |i: int| sessions[i]@)
}

/// The views of a list of strings.
pub open spec fn line_views(lines: Seq<String>) -> Seq<Seq<char>> {
    Seq::new(lines.len(), |i: int| lines[i]@)
}

/// Why no session was chosen.
#[derive(Debug)]
pub enum SessionError {
    /// No session has the identifier.
    NotFound { id: String },
    /// The pattern is no regular expression.
    InvalidRegex { pattern: String, cause: regex::Error },
    /// Neither an identifier nor a pattern was given.
    NoSelector,
    /// There is no session to choose from.
    NoSessions,
    /// The user chose to cancel.
    Canceled,
    /// What was chosen stands for no session.
    InvalidSelection,
}

/// What a `SessionError` stands for.
pub enum SessionErrorView {
    NotFound { id: Seq<char> },
    InvalidRegex { pattern: Seq<char>, cause: regex::Error },
    NoSelector,
    NoSessions,
    Canceled,
    InvalidSelection,
}

impl View for SessionError {
    type V = SessionErrorView;

    open spec fn view(&self) -> SessionErrorView {
        match self {
            SessionError::NotFound { id } => SessionErrorView::NotFound { id: id@ },
            SessionError::InvalidRegex { pattern, cause } => SessionErrorView::InvalidRegex {
                pattern: pattern@,
                cause: *cause,
            },
            SessionError::NoSelector => SessionErrorView::NoSelector,
            SessionError::NoSessions => SessionErrorView::NoSessions,
            SessionError::Canceled => SessionErrorView::Canceled,
            SessionError::InvalidSelection => SessionErrorView::InvalidSelection,
        }
    }
}

/// The message of an error.
pub open spec fn error_message(error: SessionErrorView) -> Seq<char> {
    match error {
        SessionErrorView::NotFound { id } => "Session '"@ + id + "' not found."@,
        SessionErrorView::InvalidRegex { pattern, .. } => "Invalid regex pattern '"@ + pattern
            + "'"@,
        SessionErrorView::NoSelector => "Neither --regex nor --id flags provided."@,
        SessionErrorView::NoSessions => "No sessions found"@,
        SessionErrorView::Canceled => "Export canceled"@,
        SessionErrorView::InvalidSelection => "Invalid selection"@,
    }
}

impl SessionError {
    /// The message of the error.
    pub fn message(&self) -> (text: String)
        ensures
            text@ == error_message(self@),
    {
        match self {
            SessionError::NotFound { id } => {
                let mut text = String::from_str("Session '");
                text.append(id.as_str());
                text.append("' not found.");
                text
            },
            SessionError::InvalidRegex { pattern, .. } => {
                let mut text = String::from_str("Invalid regex pattern '");
                text.append(pattern.as_str());
                text.append("'");
                text
            },
            SessionError::NoSelector => String::from_str("Neither --regex nor --id flags provided."),
            SessionError::NoSessions => String::from_str("No sessions found"),
            SessionError::Canceled => String::from_str("Export canceled"),
            SessionError::InvalidSelection => String::from_str("Invalid selection"),
        }
    }
}

// ---------------------------------------------------------------------------
// Choosing sessions to remove
// ---------------------------------------------------------------------------
/// The first index at or after `from` of a session with the identifier, or
/// the number of sessions where there is none.
pub open spec fn first_with_id(sessions: Seq<SessionInfoView>, id: Seq<char>, from: int) -> int
    decreases sessions.len() - from,
{
    if from >= sessions.len() {
        sessions.len() as int
    } else if from >= 0 && sessions[from].id == id {
        from
    } else {
        first_with_id(sessions, id, from + 1)
    }
}

/// The indices at which `flags` holds `true`, in rising order.
pub open spec fn true_indices(flags: Seq<bool>) -> Seq<int>
    decreases flags.len(),
{
    if flags.len() == 0 {
        Seq::empty()
    } else if flags.last() {
        true_indices(flags.drop_last()).push(flags.len() - 1)
    } else {
        true_indices(flags.drop_last())
    }
}

/// For each session, whether the expression matches its identifier.
pub open spec fn match_flags(sessions: Seq<SessionInfoView>, re: regex::Regex) -> Seq<bool> {
    Seq::new(sessions.len(), |i: int| regex_is_match(re, sessions[i].id))
}

/// A list of indices as integers.
pub open spec fn index_views(indices: Seq<usize>) -> Seq<int> {
    Seq::new(indices.len(), |i: int| indices[i] as int)
}

/// Which sessions an identifier or a pattern chooses. An identifier takes
/// precedence and chooses the first session that has it. A pattern chooses
/// every session whose identifier it matches, which may be none.
pub open spec fn selection(
    sessions: Seq<SessionInfoView>,
    id: Seq<char>,
    pattern: Seq<char>,
) -> Result<Seq<int>, SessionErrorView> {
    if id.len() > 0 {
        if first_with_id(sessions, id, 0) < sessions.len() {
            Ok(seq![first_with_id(sessions, id, 0)])
        } else {
            Err(SessionErrorView::NotFound { id })
        }
    } else if pattern.len() > 0 {
        match regex_new(pattern) {
            Ok(re) => Ok(true_indices(match_flags(sessions, re))),
            Err(cause) => Err(SessionErrorView::InvalidRegex { pattern, cause }),
        }
    } else {
        Err(SessionErrorView::NoSelector)
    }
}

/// The view of the outcome of a selection.
pub open spec fn selection_view(r: Result<Vec<usize>, SessionError>) -> Result<
    Seq<int>,
    SessionErrorView,
> {
    match r {
        Ok(indices) => Ok(index_views(indices@)),
        Err(e) => Err(e@),
    }
}

/// The index of the first session with the identifier.
pub fn find_session(sessions: &Vec<SessionInfo>, id: &str) -> (r: Option<usize>)
    ensures
        match r {
            Some(i) => i < sessions.len() && i == first_with_id(session_views(sessions@), id@, 0),
            None => first_with_id(session_views(sessions@), id@, 0) == sessions.len(),
        },
{
    let ghost views = session_views(sessions@);
    let mut i: usize = 0;
    while i < sessions.len()
        invariant
            i <= sessions.len(),
            views == session_views(sessions@),
            first_with_id(views, id@, 0) == first_with_id(views, id@, i as int),
        decreases sessions.len() - i,
    {
        if same_text(sessions[i].id.as_str(), id) {
            return Some(i);
        }
        i += 1;
    }
    None
}

/// The indices at which `flags` holds `true`, in rising order.
pub fn selected_indices(flags: &Vec<bool>) -> (indices: Vec<usize>)
    ensures
        index_views(indices@) == true_indices(flags@),
{
    let mut indices: Vec<usize> = Vec::new();
    let mut i: usize = 0;
    while i < flags.len()
        invariant
            i <= flags.len(),
            index_views(indices@) == true_indices(flags@.take(i as int)),
        decreases flags.len() - i,
    {
        assert(flags@.take(i + 1).drop_last() =~= flags@.take(i as int));
        if flags[i] {
            let ghost before = indices@;
            indices.push(i);
        }
        i += 1;
    }
    assert(flags@.take(flags.len() as int) =~= flags@);
    indices
}

/// For each session, whether the expression matches its identifier.
pub fn session_match_flags(sessions: &Vec<SessionInfo>, re: &regex::Regex) -> (flags: Vec<bool>)
    ensures
        flags@ == match_flags(session_views(sessions@), *re),
{
    let mut flags: Vec<bool> = Vec::new();
    let mut i: usize = 0;
    while i < sessions.len()
        invariant
            i <= sessions.len(),
            flags@.len() == i,
            forall|j: int|
                0 <= j < i ==> flags@[j] == regex_is_match(*re, #[trigger] sessions@[j].id@),
        decreases sessions.len() - i,
    {
        flags.push(is_match(re, sessions[i].id.as_str()));
        i += 1;
    }
    flags
}

/// Chooses among `sessions` given the outcome of compiling the pattern.
pub fn select_with(
    sessions: &Vec<SessionInfo>,
    regex_string: &str,
    compiled: Result<regex::Regex, regex::Error>,
) -> (r: Result<Vec<usize>, SessionError>)
    ensures
        selection_view(r) == match compiled {
            Ok(re) => Ok::<Seq<int>, SessionErrorView>(
                true_indices(match_flags(session_views(sessions@), re)),
            ),
            Err(cause) => Err(SessionErrorView::InvalidRegex { pattern: regex_string@, cause }),
        },
{
    match compiled {
        Ok(re) => {
            let flags = session_match_flags(sessions, &re);
            Ok(selected_indices(&flags))
        },
        Err(cause) => Err(
            SessionError::InvalidRegex { pattern: String::from_str(regex_string), cause },
        ),
    }
}

/// Chooses the sessions to remove: the one with the identifier `id` where
/// that is not empty, else those whose identifier `regex_string` matches.
/// The result lists their indices in `sessions`.
pub fn select_sessions(sessions: &Vec<SessionInfo>, id: &str, regex_string: &str) -> (r: Result<
    Vec<usize>,
    SessionError,
>)
    ensures
        selection_view(r) == selection(session_views(sessions@), id@, regex_string@),
{
    if id.unicode_len() > 0 {
        match find_session(sessions, id) {
            Some(i) => {
                let mut indices: Vec<usize> = Vec::new();
                indices.push(i);
                assert(index_views(indices@) =~= seq![i as int]);
                Ok(indices)
            },
            None => Err(SessionError::NotFound { id: String::from_str(id) }),
        }
    } else if regex_string.unicode_len() > 0 {
        select_with(sessions, regex_string, compile(regex_string))
    } else {
        Err(SessionError::NoSelector)
    }
}

// ---------------------------------------------------------------------------
// Listing
// ---------------------------------------------------------------------------
/// How a listing is written.
#[derive(Clone, Copy, Debug, PartialEq, Eq, Structural)]
pub enum ListFormat {
    Json,
    Text,
}

/// The format that a name asks for: JSON for `json`, text for any other.
pub fn list_format(name: &str) -> (format: ListFormat)
    ensures
        format == if name@ == "json"@ {
            ListFormat::Json
        } else {
            ListFormat::Text
        },
{
    if same_text(name, "json") {
        ListFormat::Json
    } else {
        ListFormat::Text
    }
}

/// The description of a session as it is listed.
pub open spec fn listed_description(description: Seq<char>) -> Seq<char> {
    if description.len() == 0 {
        "(none)"@
    } else {
        description
    }
}

/// The summary line of a session.
pub open spec fn summary_line(session: SessionInfoView) -> Seq<char> {
    session.id + " - "@ + listed_description(session.description) + " - "@ + session.modified
}

/// The lines of one session in a listing.
pub open spec fn session_lines(session: SessionInfoView, verbose: bool) -> Seq<Seq<char>> {
    if verbose {
        seq!["  "@ + summary_line(session), "    Path: "@ + session.path]
    } else {
        seq![summary_line(session)]
    }
}

/// The lines of the sessions of a listing, in order.
pub open spec fn sessions_lines(sessions: Seq<SessionInfoView>, verbose: bool) -> Seq<Seq<char>>
    decreases sessions.len(),
{
    if sessions.len() == 0 {
        Seq::empty()
    } else {
        sessions_lines(sessions.drop_last(), verbose) + session_lines(sessions.last(), verbose)
    }
}

/// The lines of a listing.
pub open spec fn listing(sessions: Seq<SessionInfoView>, verbose: bool) -> Seq<Seq<char>> {
    if sessions.len() == 0 {
        seq!["No sessions found"@]
    } else {
        seq!["Available sessions:"@] + sessions_lines(sessions, verbose)
    }
}

/// The summary line of a session.
pub fn session_summary(session: &SessionInfo) -> (line: String)
    ensures
        line@ == summary_line(session@),
{
    let mut line = String::from_str(session.id.as_str());
    line.append(" - ");
    if session.description.as_str().unicode_len() == 0 {
        line.append("(none)");
    } else {
        line.append(session.description.as_str());
    }
    line.append(" - ");
    line.append(session.modified.as_str());
    line
}

/// The lines that list the sessions as text: a notice where there is none,
/// else a heading and a line for each session, with its path on a second
/// line where `verbose` is set.
pub fn session_list_lines(sessions: &Vec<SessionInfo>, verbose: bool) -> (lines: Vec<String>)
    ensures
        line_views(lines@) == listing(session_views(sessions@), verbose),
{
    let mut lines: Vec<String> = Vec::new();
    if sessions.len() == 0 {
        lines.push(String::from_str("No sessions found"));
        return lines;
    }
    let ghost views = session_views(sessions@);
    lines.push(String::from_str("Available sessions:"));
    let mut i: usize = 0;
    while i < sessions.len()
        invariant
            i <= sessions.len(),
            views == session_views(sessions@),
            line_views(lines@) == seq!["Available sessions:"@] + sessions_lines(
                views.take(i as int),
                verbose,
            ),
        decreases sessions.len() - i,
    {
        assert(views.take(i + 1).drop_last() =~= views.take(i as int));
        let ghost before = line_views(lines@);
        let summary = session_summary(&sessions[i]);
        if verbose {
            let mut first = String::from_str("  ");
            first.append(summary.as_str());
            let mut second = String::from_str("    Path: ");
            second.append(sessions[i].path.as_str());
            lines.push(first);
            lines.push(second);
            assert(line_views(lines@) =~= before + session_lines(sessions[i as int]@, verbose));
        } else {
            lines.push(summary);
            assert(line_views(lines@) =~= before + session_lines(sessions[i as int]@, verbose));
        }
        i += 1;
    }
    assert(views.take(sessions.len() as int) =~= views);
    lines
}

// ---------------------------------------------------------------------------
// Choosing a session to export
// ---------------------------------------------------------------------------
/// The description of a session as it is offered for choice.
pub open spec fn offered_description(description: Seq<char>) -> Seq<char> {
    if description.len() == 0 {
        "(no description)"@
    } else {
        description
    }
}

/// A description can be cut to its first 37 bytes: it is short enough not
/// to be cut at all, or its 38th byte begins a character.
pub open spec fn can_shorten(description: Seq<char>) -> bool {
    byte_len(description) > 40 ==> is_char_boundary(encode_utf8(description), 37)
}

/// A description of more than 40 bytes, cut to its first 37 bytes and
/// followed by three dots; any other as it is.
pub open spec fn shortened(description: Seq<char>) -> Seq<char> {
    if byte_len(description) > 40 {
        decode_utf8(encode_utf8(description).subrange(0, 37)) + "..."@
    } else {
        description
    }
}

/// The text under which a session is offered for choice.
pub open spec fn display_text(session: SessionInfoView) -> Seq<char> {
    session.modified + " - "@ + shortened(offered_description(session.description)) + " ("@
        + session.id + ")"@
}

/// Every session has a description that can be cut.
pub open spec fn all_can_shorten(sessions: Seq<SessionInfoView>) -> bool {
    forall|i: int|
        0 <= i < sessions.len() ==> can_shorten(
            offered_description((#[trigger] sessions[i]).description),
        )
}

/// The largest index below `bound` of a session offered under `text`, or -1.
pub open spec fn last_offered_as(sessions: Seq<SessionInfoView>, text: Seq<char>, bound: int) -> int
    decreases bound,
{
    if bound <= 0 {
        -1
    } else if bound <= sessions.len() && display_text(sessions[bound - 1]) == text {
        bound - 1
    } else {
        last_offered_as(sessions, text, bound - 1)
    }
}

/// What a choice stands for: the word `cancel` cancels; the text of a
/// session chooses it, the last one where several are offered alike.
pub open spec fn chosen(sessions: Seq<SessionInfoView>, choice: Seq<char>) -> Result<
    int,
    SessionErrorView,
> {
    if choice == "cancel"@ {
        Err(SessionErrorView::Canceled)
    } else if last_offered_as(sessions, choice, sessions.len() as int) >= 0 {
        Ok(last_offered_as(sessions, choice, sessions.len() as int))
    } else {
        Err(SessionErrorView::InvalidSelection)
    }
}

/// The texts under which the sessions are offered, in order.
pub open spec fn display_texts(sessions: Seq<SessionInfoView>) -> Seq<Seq<char>> {
    Seq::new(sessions.len(), |i: int| display_text(sessions[i]))
}

/// Whether a description can be cut to its first 37 bytes.
pub fn can_shorten_description(description: &str) -> (b: bool)
    ensures
        b == can_shorten(description@),
{
    byte_count(description) <= 40 || description.is_char_boundary(37)
}

/// Whether every session has a description that can be cut, so that the
/// sessions can be offered for choice.
pub fn sessions_can_be_offered(sessions: &Vec<SessionInfo>) -> (b: bool)
    ensures
        b == all_can_shorten(session_views(sessions@)),
{
    let ghost views = session_views(sessions@);
    let mut i: usize = 0;
    while i < sessions.len()
        invariant
            i <= sessions.len(),
            views == session_views(sessions@),
            forall|j: int|
                0 <= j < i ==> can_shorten(offered_description((#[trigger] views[j]).description)),
        decreases sessions.len() - i,
    {
        let fits = if sessions[i].description.as_str().unicode_len() == 0 {
            can_shorten_description("(no description)")
        } else {
            can_shorten_description(sessions[i].description.as_str())
        };
        if !fits {
            assert(!can_shorten(offered_description(views[i as int].description)));
            return false;
        }
        i += 1;
    }
    true
}

/// A description of more than 40 bytes, cut to its first 37 bytes and
/// followed by three dots; any other as it is.
pub fn shorten_description(description: &str) -> (r: String)
    requires
        can_shorten(description@),
    ensures
        r@ == shortened(description@),
{
    if byte_count(description) > 40 {
        let (head, _) = description.split_at(37);
        proof {
            vstd::utf8::encode_utf8_decode_utf8(head@);
        }
        let mut r = String::from_str(head);
        r.append("...");
        r
    } else {
        String::from_str(description)
    }
}

/// The text under which a session is offered for choice: when it was
/// modified, its description, cut where it is long, and its identifier.
pub fn session_display_text(session: &SessionInfo) -> (text: String)
    requires
        can_shorten(offered_description(session@.description)),
    ensures
        text@ == display_text(session@),
{
    let description = if session.description.as_str().unicode_len() == 0 {
        shorten_description("(no description)")
    } else {
        shorten_description(session.description.as_str())
    };
    let mut text = String::from_str(session.modified.as_str());
    text.append(" - ");
    text.append(description.as_str());
    text.append(" (");
    text.append(session.id.as_str());
    text.append(")");
    text
}

/// The texts of `texts` in order, each only where it first occurs.
pub open spec fn without_repeats(texts: Seq<Seq<char>>) -> Seq<Seq<char>>
    decreases texts.len(),
{
    if texts.len() == 0 {
        Seq::empty()
    } else if texts.drop_last().contains(texts.last()) {
        without_repeats(texts.drop_last())
    } else {
        without_repeats(texts.drop_last()).push(texts.last())
    }
}

/// Whether `text` is one of `lines`.
pub fn is_listed(lines: &Vec<String>, text: &str) -> (b: bool)
    ensures
        b == line_views(lines@).contains(text@),
{
    let mut i: usize = 0;
    while i < lines.len()
        invariant
            i <= lines.len(),
            forall|j: int| 0 <= j < i ==> line_views(lines@)[j] != text@,
        decreases lines.len() - i,
    {
        if same_text(lines[i].as_str(), text) {
            assert(line_views(lines@)[i as int] == text@);
            return true;
        }
        i += 1;
    }
    false
}

/// The texts under which the sessions are offered for choice, each once and
/// in the order of the sessions, or an error where there is no session.
pub fn selection_items(sessions: &Vec<SessionInfo>) -> (r: Result<Vec<String>, SessionError>)
    requires
        all_can_shorten(session_views(sessions@)),
    ensures
        match r {
            Ok(items) => sessions.len() > 0 && line_views(items@) == without_repeats(
                display_texts(session_views(sessions@)),
            ),
            Err(e) => sessions.len() == 0 && e@ == SessionErrorView::NoSessions,
        },
{
    if sessions.len() == 0 {
        return Err(SessionError::NoSessions);
    }
    let ghost views = session_views(sessions@);
    let ghost texts = display_texts(views);
    let mut seen: Vec<String> = Vec::new();
    let mut items: Vec<String> = Vec::new();
    let mut i: usize = 0;
    while i < sessions.len()
        invariant
            i <= sessions.len(),
            views == session_views(sessions@),
            texts == display_texts(views),
            all_can_shorten(views),
            line_views(seen@) == texts.take(i as int),
            line_views(items@) == without_repeats(texts.take(i as int)),
        decreases sessions.len() - i,
    {
        assert(views[i as int] == sessions[i as int]@);
        let text = session_display_text(&sessions[i]);
        assert(texts.take(i + 1).drop_last() =~= texts.take(i as int));
        if !is_listed(&seen, text.as_str()) {
            items.push(text.clone());
        }
        seen.push(text);
        i += 1;
    }
    assert(texts.take(sessions.len() as int) =~= texts);
    Ok(items)
}

/// The index of the session that a choice stands for.
pub fn resolve_selection(sessions: &Vec<SessionInfo>, choice: &str) -> (r: Result<
    usize,
    SessionError,
>)
    requires
        all_can_shorten(session_views(sessions@)),
    ensures
        match r {
            Ok(i) => i < sessions.len() && chosen(session_views(sessions@), choice@) == Ok::<
                int,
                SessionErrorView,
            >(i as int),
            Err(e) => chosen(session_views(sessions@), choice@) == Err::<int, SessionErrorView>(
                e@,
            ),
        },
{
    if same_text(choice, "cancel") {
        return Err(SessionError::Canceled);
    }
    let ghost views = session_views(sessions@);
    let mut bound: usize = sessions.len();
    while bound > 0
        invariant
            bound <= sessions.len(),
            views == session_views(sessions@),
            all_can_shorten(views),
            choice@ != "cancel"@,
            last_offered_as(views, choice@, sessions.len() as int) == last_offered_as(
                views,
                choice@,
                bound as int,
            ),
        decreases bound,
    {
        let text = session_display_text(&sessions[bound - 1]);
        if same_text(text.as_str(), choice) {
            return Ok(bound - 1);
        }
        bound -= 1;
    }
    Err(SessionError::InvalidSelection)
}

// ---------------------------------------------------------------------------
// Facts about choosing
// ---------------------------------------------------------------------------
/// `first_with_id` gives a session with the identifier before which there
/// is none, and the number of sessions where no session has it.
pub proof fn lemma_first_with_id(sessions: Seq<SessionInfoView>, id: Seq<char>, from: int)
    requires
        0 <= from <= sessions.len(),
    ensures
        ({
            let found = first_with_id(sessions, id, from);
            &&& from <= found <= sessions.len()
            &&& found < sessions.len() ==> sessions[found].id == id
            &&& forall|i: int| from <= i < found ==> sessions[i].id != id
        }),
    decreases sessions.len() - from,
{
    if from < sessions.len() && sessions[from].id != id {
        lemma_first_with_id(sessions, id, from + 1);
    }
}

/// `true_indices` lists exactly the indices that are flagged, each once and
/// in rising order.
pub proof fn lemma_true_indices(flags: Seq<bool>)
    ensures
        forall|k: int|
            0 <= k < true_indices(flags).len() ==> 0 <= #[trigger] true_indices(flags)[k]
                < flags.len() && flags[true_indices(flags)[k]],
        forall|j: int, k: int|
            0 <= j < k < true_indices(flags).len() ==> true_indices(flags)[j] < true_indices(
                flags,
            )[k],
        forall|i: int| 0 <= i < flags.len() && flags[i] ==> true_indices(flags).contains(i),
    decreases flags.len(),
{
    if flags.len() > 0 {
        let front = flags.drop_last();
        lemma_true_indices(front);
        let chosen = true_indices(flags);
        let before = true_indices(front);
        assert forall|i: int| 0 <= i < flags.len() && flags[i] implies chosen.contains(i) by {
            if i < front.len() {
                assert(front[i]);
                let k = choose|k: int| 0 <= k < before.len() && before[k] == i;
                assert(chosen[k] == i);
            } else {
                assert(chosen[chosen.len() - 1] == i);
            }
        }
    }
}

/// A pattern that compiles chooses exactly the sessions whose identifier it
/// matches: every chosen index is that of such a session, and every such
/// session is chosen.
pub proof fn lemma_pattern_selects_matches(
    sessions: Seq<SessionInfoView>,
    pattern: Seq<char>,
    re: regex::Regex,
)
    requires
        pattern.len() > 0,
        regex_new(pattern) == Ok::<regex::Regex, regex::Error>(re),
    ensures
        selection(sessions, Seq::empty(), pattern) is Ok,
        ({
            let chosen = selection(sessions, Seq::empty(), pattern)->Ok_0;
            &&& forall|k: int|
                0 <= k < chosen.len() ==> 0 <= #[trigger] chosen[k] < sessions.len()
                    && regex_is_match(re, sessions[chosen[k]].id)
            &&& forall|i: int|
                0 <= i < sessions.len() && regex_is_match(re, sessions[i].id) ==> chosen.contains(
                    i,
                )
        }),
{
    let flags = match_flags(sessions, re);
    lemma_true_indices(flags);
    let chosen = true_indices(flags);
    assert(selection(sessions, Seq::empty(), pattern) == Ok::<Seq<int>, SessionErrorView>(chosen));
    assert forall|k: int| 0 <= k < chosen.len() implies 0 <= #[trigger] chosen[k] < sessions.len()
        && regex_is_match(re, sessions[chosen[k]].id) by {
        assert(flags[chosen[k]]);
    }
    assert forall|i: int|
        0 <= i < sessions.len() && regex_is_match(re, sessions[i].id) implies chosen.contains(
        i,
    ) by {
        assert(flags[i]);
    }
}

/// `without_repeats` keeps every text of the list, and none twice.
pub proof fn lemma_without_repeats(texts: Seq<Seq<char>>)
    ensures
        forall|t: Seq<char>| texts.contains(t) <==> without_repeats(texts).contains(t),
        forall|j: int, k: int|
            0 <= j < k < without_repeats(texts).len() ==> without_repeats(texts)[j]
                != without_repeats(texts)[k],
    decreases texts.len(),
{
    if texts.len() > 0 {
        let front = texts.drop_last();
        let last = texts.last();
        lemma_without_repeats(front);
        let kept = without_repeats(texts);
        let before = without_repeats(front);
        assert forall|t: Seq<char>| texts.contains(t) implies kept.contains(t) by {
            let i = choose|i: int| 0 <= i < texts.len() && texts[i] == t;
            if i < front.len() {
                assert(front[i] == t);
                assert(front.contains(t));
                let k = choose|k: int| 0 <= k < before.len() && before[k] == t;
                assert(kept[k] == t);
            } else if front.contains(last) {
                let k = choose|k: int| 0 <= k < before.len() && before[k] == last;
                assert(kept[k] == t);
            } else {
                assert(kept[kept.len() - 1] == t);
            }
        }
        assert forall|t: Seq<char>| kept.contains(t) implies texts.contains(t) by {
            let k = choose|k: int| 0 <= k < kept.len() && kept[k] == t;
            if k < before.len() {
                assert(before[k] == t);
                assert(before.contains(t));
                assert(front.contains(t));
                let i = choose|i: int| 0 <= i < front.len() && front[i] == t;
                assert(texts[i] == t);
            } else {
                assert(texts[texts.len() - 1] == t);
            }
        }
        assert forall|j: int, k: int| 0 <= j < k < kept.len() implies kept[j] != kept[k] by {
            if k >= before.len() {
                assert(before[j] == kept[j]);
                assert(before.contains(kept[j]));
            }
        }
    }
}

} // verus!
