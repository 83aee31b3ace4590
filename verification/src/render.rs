use vstd::prelude::*;
use vstd::string::StringExecFns;
use crate::actions::{Action, action_name, display_name};
use crate::entry::{Entry, EntryModel};
use crate::select::{ListModel, SelectionList};

verus! {

/// The three banner categories a result can end in: success after a backend
/// call, a user's cancellation, and a backend failure. They are rendered
/// visually distinct and are not interchangeable: a cancellation is a user
/// decision, an error is a backend failure.
#[derive(Clone, Copy, Debug, PartialEq, Eq, Structural)]
pub enum BannerKind {
    Success,
    Cancel,
    Error,
}

/// The label of each banner category.
pub open spec fn banner_text(k: BannerKind) -> Seq<char> {
    match k {
        BannerKind::Success => "done"@,
        BannerKind::Cancel => "canceled"@,
        BannerKind::Error => "error"@,
    }
}

/// Returns the label of a banner category.
pub fn banner_label(k: BannerKind) -> (r: &'static str)
    ensures
        r@ == banner_text(k),
{
    match k {
        BannerKind::Success => "done",
        BannerKind::Cancel => "canceled",
        BannerKind::Error => "error",
    }
}

/// Returns the label of a banner category followed by a blank line, the
/// form in which every banner closes.
pub fn banner_line(k: BannerKind) -> (r: String)
    ensures
        r@ == banner_text(k) + "\n\n"@,
{
    let r = String::from_str(banner_label(k)).concat("\n\n");
    proof {
        assert(r@ =~= banner_text(k) + "\n\n"@);
    }
    r
}

/// A full-width fill for the header bar: `width` spaces.
pub fn header_fill(width: usize) -> (r: String)
    ensures
        r@.len() == width as int,
        forall|i: int| 0 <= i < width as int ==> r@[i] == ' ',
{
    proof {
        reveal_strlit(" ");
    }
    let mut s = String::new();
    let mut i: usize = 0;
    while i < width
        invariant
            i <= width,
            s@.len() == i as int,
            forall|j: int| 0 <= j < i as int ==> s@[j] == ' ',
        decreases width - i,
    {
        proof {
            reveal_strlit(" ");
        }
        s.append(" ");
        i = i + 1;
    }
    s
}

/// The header title: the program name and the repository it works on,
/// followed by a blank line.
pub open spec fn header_title_text(repository_name: Seq<char>) -> Seq<char> {
    "Verco @ "@ + repository_name + "\n\n"@
}

/// Returns the header title for a repository.
pub fn header_title(repository_name: &str) -> (r: String)
    ensures
        r@ == header_title_text(repository_name@),
{
    let r = String::from_str("Verco @ ").concat(repository_name).concat("\n\n");
    proof {
        assert(r@ =~= header_title_text(repository_name@));
    }
    r
}

/// The action banner: the display name of the action in progress, followed
/// by a blank line.
pub fn action_banner(a: Action) -> (r: String)
    ensures
        r@ == action_name(a) + "\n\n"@,
{
    let r = String::from_str(display_name(a)).concat("\n\n");
    proof {
        assert(r@ =~= action_name(a) + "\n\n"@);
    }
    r
}

/// The payload of an outcome, success or failure alike: the backend's text
/// verbatim, followed by a blank line. This core never interprets that
/// text.
pub fn outcome_payload(result: &Result<String, String>) -> (r: String)
    ensures
        result matches Ok(t) ==> r@ == t@ + "\n\n"@,
        result matches Err(e) ==> r@ == e@ + "\n\n"@,
{
    let r = match result {
        Ok(t) => t.clone().concat("\n\n"),
        Err(e) => e.clone().concat("\n\n"),
    };
    r
}

/// The banner category of an outcome: success exactly on `Ok`, error
/// exactly on `Err`.
pub fn outcome_kind(result: &Result<String, String>) -> (r: BannerKind)
    ensures
        r == BannerKind::Success <==> result is Ok,
        r == BannerKind::Error <==> result is Err,
{
    match result {
        Ok(_) => BannerKind::Success,
        Err(_) => BannerKind::Error,
    }
}

/// One line of the help listing: shortcut, then display name, separated by
/// tabs.
pub open spec fn help_line_text(shortcut: Seq<char>, name: Seq<char>) -> Seq<char> {
    "\t"@ + shortcut + "\t\t"@ + name + "\n"@
}

/// Returns one line of the help listing.
pub fn help_line(shortcut: &str, name: &str) -> (r: String)
    ensures
        r@ == help_line_text(shortcut@, name@),
{
    let r = String::from_str("\t").concat(shortcut).concat("\t\t").concat(name).concat("\n");
    proof {
        assert(r@ =~= help_line_text(shortcut@, name@));
    }
    r
}

/// The full help listing: every action's key binding and display name,
/// fully enumerated, grouped by related operations with blank-line
/// separators.
pub open spec fn help_listing() -> Seq<char> {
    "press a key and perform an action\n\n"@ + help_line_text("h"@, "help\n"@) + help_line_text(
        "e"@,
        "explorer\n"@,
    ) + help_line_text("s"@, "status"@) + help_line_text("l"@, "log\n"@) + help_line_text(
        "d"@,
        "revision changes"@,
    ) + help_line_text("shift+d"@, "revision diff\n"@) + help_line_text("c"@, "commit all"@)
        + help_line_text("shift+c"@, "commit selected"@) + help_line_text("shift+u"@, "revert"@)
        + help_line_text("u"@, "update/checkout"@) + help_line_text("m"@, "merge\n"@)
        + help_line_text("r"@, "unresolved conflicts"@) + help_line_text(
        "shift+r"@,
        "resolve taking other"@,
    ) + help_line_text("ctrl+r"@, "resolve taking local\n"@) + help_line_text("f"@, "fetch"@)
        + help_line_text("p"@, "pull"@) + help_line_text("shift+p"@, "push\n"@) + help_line_text(
        "shift+t"@,
        "create tag\n"@,
    ) + help_line_text("b"@, "list branches"@) + help_line_text("shift+b"@, "create branch"@)
        + help_line_text("ctrl+b"@, "close branch\n"@)
}

/// Returns the full help listing.
pub fn help_text() -> (r: String)
    ensures
        r@ == help_listing(),
{
    let mut s = String::from_str("press a key and perform an action\n\n");
    s.append(help_line("h", "help\n").as_str());
    s.append(help_line("e", "explorer\n").as_str());
    s.append(help_line("s", "status").as_str());
    s.append(help_line("l", "log\n").as_str());
    s.append(help_line("d", "revision changes").as_str());
    s.append(help_line("shift+d", "revision diff\n").as_str());
    s.append(help_line("c", "commit all").as_str());
    s.append(help_line("shift+c", "commit selected").as_str());
    s.append(help_line("shift+u", "revert").as_str());
    s.append(help_line("u", "update/checkout").as_str());
    s.append(help_line("m", "merge\n").as_str());
    s.append(help_line("r", "unresolved conflicts").as_str());
    s.append(help_line("shift+r", "resolve taking other").as_str());
    s.append(help_line("ctrl+r", "resolve taking local\n").as_str());
    s.append(help_line("f", "fetch").as_str());
    s.append(help_line("p", "pull").as_str());
    s.append(help_line("shift+p", "push\n").as_str());
    s.append(help_line("shift+t", "create tag\n").as_str());
    s.append(help_line("b", "list branches").as_str());
    s.append(help_line("shift+b", "create branch").as_str());
    s.append(help_line("ctrl+b", "close branch\n").as_str());
    proof {
        assert(s@ =~= help_listing());
    }
    s
}

/// One line of the selection list: a cursor marker on the current entry, an
/// inclusion mark, and the entry's path.
pub open spec fn entry_line_text(e: EntryModel, current: bool) -> Seq<char> {
    (if current {
        "> "@
    } else {
        "  "@
    }) + (if e.included {
        "[x] "@
    } else {
        "[ ] "@
    }) + e.path + "\n"@
}

/// The first `n` lines of the selection list over `entries` with the
/// cursor at `cursor`.
pub open spec fn selection_prefix(entries: Seq<EntryModel>, cursor: int, n: int) -> Seq<char>
    decreases n,
{
    if n <= 0 {
        Seq::<char>::empty()
    } else {
        selection_prefix(entries, cursor, n - 1) + entry_line_text(
            entries[n - 1],
            cursor == n - 1,
        )
    }
}

/// The whole rendered selection list: every entry on its own line, each
/// marked included or excluded, the current one highlighted.
pub open spec fn selection_text(l: ListModel) -> Seq<char> {
    selection_prefix(l.entries, l.cursor, l.entries.len() as int)
}

/// Returns one rendered line of the selection list.
fn entry_line(e: &Entry, current: bool) -> (r: String)
    ensures
        r@ == entry_line_text(e@, current),
{
    let marker = if current {
        "> "
    } else {
        "  "
    };
    let flag = if e.included {
        "[x] "
    } else {
        "[ ] "
    };
    let r = String::from_str(marker).concat(flag).concat(e.path.as_str()).concat("\n");
    proof {
        assert(r@ =~= entry_line_text(e@, current));
    }
    r
}

/// Renders the selection list.
pub fn selection_lines(l: &SelectionList) -> (r: String)
    ensures
        r@ == selection_text(l@),
{
    let mut s = String::new();
    let mut i: usize = 0;
    while i < l.entries.len()
        invariant
            i <= l.entries.len(),
            s@ == selection_prefix(l@.entries, l@.cursor, i as int),
        decreases l.entries.len() - i,
    {
        let line = entry_line(&l.entries[i], i == l.cursor);
        s.append(line.as_str());
        i = i + 1;
    }
    s
}

} // verus!
