//! Routing of a second launch's arguments to the running instance.
use vstd::prelude::*;
use vstd::string::StrSliceExecFns;

verus! {

/// The custom URL scheme that marks a deep link among launch arguments.
pub open spec fn deep_link_scheme() -> Seq<char> {
    "skillpad://"@
}

/// `p` is a prefix of `s`.
pub open spec fn has_prefix(s: Seq<char>, p: Seq<char>) -> bool {
    p.len() <= s.len() && s.subrange(0, p.len() as int) == p
}

/// A launch argument that is a deep link.
pub open spec fn is_deep_link(arg: Seq<char>) -> bool {
    has_prefix(arg, deep_link_scheme())
}

/// Whether `s` starts with `prefix`, character by character.
pub fn starts_with(s: &str, prefix: &str) -> (r: bool)
    ensures
        r == has_prefix(s@, prefix@),
{
    let n: usize = prefix.unicode_len();
    let m: usize = s.unicode_len();
    if n > m {
        return false;
    }
    let mut i: usize = 0;
    while i < n
        invariant
            n == prefix@.len(),
            m == s@.len(),
            n <= m,
            i <= n,
            forall|j: int| 0 <= j < i ==> s@[j] == prefix@[j],
        decreases n - i,
    {
        if s.get_char(i) != prefix.get_char(i) {
            assert(s@.subrange(0, n as int)[i as int] != prefix@[i as int]);
            return false;
        }
        i = i + 1;
    }
    assert(s@.subrange(0, n as int) =~= prefix@);
    true
}

/// The views of a list of launch arguments.
pub open spec fn arg_views(args: Seq<String>) -> Seq<Seq<char>> {
    args.map_values(|a: String| a@)
}

/// The deep link that a launch forwards: the first argument, in list order,
/// that carries the scheme.
pub open spec fn forwarded_link(args: Seq<Seq<char>>) -> Option<Seq<char>>
    decreases args.len(),
{
    if args.len() == 0 {
        None
    } else if is_deep_link(args[0]) {
        Some(args[0])
    } else {
        forwarded_link(args.drop_first())
    }
}

/// What the running instance does when another launch hands it arguments.
pub enum RelaunchAction {
    /// Nothing to forward, or no main window to forward it to.
    Ignore,
    /// Focus the main window and emit the deep-link event with this URL.
    FocusAndEmit(String),
}

/// The action as a value of the model: the URL emitted, if any.
pub open spec fn relaunch_action_view(a: RelaunchAction) -> Option<Seq<char>> {
    match a {
        RelaunchAction::Ignore => None,
        RelaunchAction::FocusAndEmit(url) => Some(url@),
    }
}

/// The action owed to a relaunch with `args`, given whether a main window exists.
pub open spec fn relaunch_action(args: Seq<Seq<char>>, main_window_present: bool) -> Option<
    Seq<char>,
> {
    if main_window_present {
        forwarded_link(args)
    } else {
        None
    }
}

/// The name of the application event that carries a forwarded deep link.
pub open spec fn deep_link_event_spec() -> Seq<char> {
    "deep-link-open"@
}

/// The name of the application event that carries a forwarded deep link.
pub fn deep_link_event() -> (r: &'static str)
    ensures
        r@ == deep_link_event_spec(),
{
    "deep-link-open"
}

/// Whether a launch argument is a deep link.
pub fn is_deep_link_arg(arg: &str) -> (r: bool)
    ensures
        r == is_deep_link(arg@),
{
    starts_with(arg, "skillpad://")
}

/// A match at `i` with none before it is the one forwarded.
pub proof fn lemma_first_match_is_forwarded(args: Seq<Seq<char>>, i: int)
    requires
        0 <= i < args.len(),
        is_deep_link(args[i]),
        forall|j: int| 0 <= j < i ==> !is_deep_link(args[j]),
    ensures
        forwarded_link(args) == Some(args[i]),
    decreases i,
{
    if i > 0 {
        let rest = args.drop_first();
        assert forall|j: int| 0 <= j < i - 1 implies !is_deep_link(rest[j]) by {
            assert(rest[j] == args[j + 1]);
        }
        lemma_first_match_is_forwarded(rest, i - 1);
    }
}

/// A list without any deep link forwards nothing.
pub proof fn lemma_no_match_forwards_nothing(args: Seq<Seq<char>>)
    requires
        forall|j: int| 0 <= j < args.len() ==> !is_deep_link(args[j]),
    ensures
        forwarded_link(args) is None,
    decreases args.len(),
{
    if args.len() > 0 {
        let rest = args.drop_first();
        assert forall|j: int| 0 <= j < rest.len() implies !is_deep_link(rest[j]) by {
            assert(rest[j] == args[j + 1]);
        }
        lemma_no_match_forwards_nothing(rest);
    }
}

/// The index of the first deep link among `args`, if there is one.
pub fn find_deep_link(args: &Vec<String>) -> (r: Option<usize>)
    ensures
        match r {
            Some(i) => {
                &&& i < args@.len()
                &&& is_deep_link(args@[i as int]@)
                &&& forall|j: int| 0 <= j < i ==> !is_deep_link(#[trigger] args@[j]@)
                &&& forwarded_link(arg_views(args@)) == Some(args@[i as int]@)
            },
            None => {
                &&& forall|j: int| 0 <= j < args@.len() ==> !is_deep_link(#[trigger] args@[j]@)
                &&& forwarded_link(arg_views(args@)) is None
            },
        },
{
    let ghost v = arg_views(args@);
    let mut i: usize = 0;
    while i < args.len()
        invariant
            i <= args@.len(),
            v == arg_views(args@),
            forall|j: int| 0 <= j < i ==> !is_deep_link(#[trigger] args@[j]@),
        decreases args@.len() - i,
    {
        if is_deep_link_arg(args[i].as_str()) {
            proof {
                assert forall|j: int| 0 <= j < i implies !is_deep_link(v[j]) by {
                    assert(v[j] == args@[j]@);
                }
                lemma_first_match_is_forwarded(v, i as int);
            }
            return Some(i);
        }
        i = i + 1;
    }
    proof {
        assert forall|j: int| 0 <= j < v.len() implies !is_deep_link(v[j]) by {
            assert(v[j] == args@[j]@);
        }
        lemma_no_match_forwards_nothing(v);
    }
    None
}

/// Decides what the running instance does with the arguments of another launch:
/// with a main window and a deep link among `args`, it focuses the window and
/// emits the first deep link; otherwise it does nothing.
pub fn route_relaunch(args: &Vec<String>, main_window_present: bool) -> (r: RelaunchAction)
    ensures
        relaunch_action_view(r) == relaunch_action(arg_views(args@), main_window_present),
{
    if !main_window_present {
        return RelaunchAction::Ignore;
    }
    match find_deep_link(args) {
        Some(i) => RelaunchAction::FocusAndEmit(args[i].clone()),
        None => RelaunchAction::Ignore,
    }
}

/// A launch whose arguments hold no deep link leads to no action and no event,
/// whether or not a main window exists.
pub proof fn law_no_deep_link_no_action(args: Seq<Seq<char>>, main_window_present: bool)
    requires
        forall|j: int| 0 <= j < args.len() ==> !is_deep_link(args[j]),
    ensures
        relaunch_action(args, main_window_present) is None,
{
    lemma_no_match_forwards_nothing(args);
}

/// A launch whose arguments hold exactly one deep link focuses the main window
/// and emits that argument unchanged.
pub proof fn law_single_deep_link_forwarded(args: Seq<Seq<char>>, k: int)
    requires
        0 <= k < args.len(),
        is_deep_link(args[k]),
        forall|j: int| 0 <= j < args.len() && j != k ==> !is_deep_link(args[j]),
    ensures
        relaunch_action(args, true) == Some(args[k]),
{
    lemma_first_match_is_forwarded(args, k);
}

/// Of several deep links among the arguments, only the first in list order is
/// forwarded: a later one never is, unless it is the same text.
pub proof fn law_first_deep_link_wins(args: Seq<Seq<char>>, i: int, j: int)
    requires
        0 <= i < j < args.len(),
        is_deep_link(args[i]),
        is_deep_link(args[j]),
        forall|k: int| 0 <= k < i ==> !is_deep_link(args[k]),
    ensures
        relaunch_action(args, true) == Some(args[i]),
        args[j] != args[i] ==> relaunch_action(args, true) != Some(args[j]),
{
    lemma_first_match_is_forwarded(args, i);
}

} // verus!
