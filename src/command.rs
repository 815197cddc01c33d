//! Remote calls and other actions the host carries out, and the routing of
//! user input to a rename or a chat message.
use vstd::prelude::*;
use vstd::string::*;

verus! {

/// Something the engine asks its host to do.
#[derive(Clone, Debug)]
pub enum Action {
    /// Subscribe to all rows of `user` and `message` and route their events to the engine.
    Subscribe,
    /// Persist this session token in the credential store.
    StoreToken(String),
    /// Call the remote procedure `set_name` with this name.
    SetName(String),
    /// Call the remote procedure `send_message` with this text.
    SendMessage(String),
}

/// What an `Action` says.
pub enum ActionView {
    Subscribe,
    StoreToken(Seq<char>),
    SetName(Seq<char>),
    SendMessage(Seq<char>),
}

impl View for Action {
    type V = ActionView;

    open spec fn view(&self) -> ActionView {
        match self {
            Action::Subscribe => ActionView::Subscribe,
            Action::StoreToken(t) => ActionView::StoreToken(t@),
            Action::SetName(n) => ActionView::SetName(n@),
            Action::SendMessage(m) => ActionView::SendMessage(m@),
        }
    }
}

pub open spec fn option_action_view(a: Option<Action>) -> Option<ActionView> {
    match a {
        Some(x) => Some(x@),
        None => None,
    }
}

/// The Unicode `White_Space` characters.
pub open spec fn is_white_space_spec(c: char) -> bool {
    ('\u{9}' <= c <= '\u{d}') || c == ' ' || c == '\u{85}' || c == '\u{a0}' || c == '\u{1680}'
        || ('\u{2000}' <= c <= '\u{200a}') || c == '\u{2028}' || c == '\u{2029}' || c
        == '\u{202f}' || c == '\u{205f}' || c == '\u{3000}'
}

/// Input that is empty once surrounding white space is trimmed.
pub open spec fn is_blank(s: Seq<char>) -> bool {
    forall|i: int| 0 <= i < s.len() ==> is_white_space_spec(#[trigger] s[i])
}

/// The prefix that marks input as a rename command.
pub open spec fn rename_prefix() -> Seq<char> {
    seq!['/', 'n', 'a', 'm', 'e', ' ']
}

pub open spec fn is_rename(s: Seq<char>) -> bool {
    s.len() >= rename_prefix().len() && s.subrange(0, rename_prefix().len() as int)
        == rename_prefix()
}

/// The remote call that input `s` asks for, if any.
pub open spec fn route_spec(s: Seq<char>) -> Option<ActionView> {
    if is_rename(s) {
        Some(ActionView::SetName(s.subrange(rename_prefix().len() as int, s.len() as int)))
    } else if is_blank(s) {
        None
    } else {
        Some(ActionView::SendMessage(s))
    }
}

/// Whether `c` is a Unicode `White_Space` character.
pub fn is_white_space(c: char) -> (r: bool)
    ensures
        r == is_white_space_spec(c),
{
    ('\u{9}' <= c && c <= '\u{d}') || c == ' ' || c == '\u{85}' || c == '\u{a0}' || c
        == '\u{1680}' || ('\u{2000}' <= c && c <= '\u{200a}') || c == '\u{2028}' || c
        == '\u{2029}' || c == '\u{202f}' || c == '\u{205f}' || c == '\u{3000}'
}

/// Routes user input: text after the prefix "/name " is a rename, input that is
/// blank after trimming asks for nothing, anything else is sent verbatim as a
/// chat message.
pub fn route_input(raw: &str) -> (r: Option<Action>)
    ensures
        option_action_view(r) == route_spec(raw@),
{
    proof {
        reveal_strlit("/name ");
    }
    let prefix = "/name ";
    let n = raw.unicode_len();
    let mut is_cmd = n >= 6;
    let mut i: usize = 0;
    while is_cmd && i < 6
        invariant
            n == raw@.len(),
            prefix@ == rename_prefix(),
            i <= 6,
            is_cmd ==> n >= 6,
            is_cmd ==> forall|j: int| 0 <= j < i ==> raw@[j] == rename_prefix()[j],
            !is_cmd ==> !is_rename(raw@),
        decreases 6 - i,
    {
        if raw.get_char(i) != prefix.get_char(i) {
            is_cmd = false;
            assert(raw@.subrange(0, 6)[i as int] != rename_prefix()[i as int]);
        }
        i = i + 1;
    }
    if is_cmd {
        assert(raw@.subrange(0, 6) =~= rename_prefix());
        let rest = raw.substring_char(6, n);
        return Some(Action::SetName(String::from_str(rest)));
    }
    let mut j: usize = 0;
    while j < n
        invariant
            n == raw@.len(),
            j <= n,
            !is_rename(raw@),
            forall|k: int| 0 <= k < j ==> is_white_space_spec(#[trigger] raw@[k]),
        decreases n - j,
    {
        if !is_white_space(raw.get_char(j)) {
            assert(!is_blank(raw@));
            return Some(Action::SendMessage(String::from_str(raw)));
        }
        j = j + 1;
    }
    None
}

} // verus!
