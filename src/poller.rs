//! The visibility poller's decision: what one tick does to the target window.

use vstd::prelude::*;

use crate::registry::IgnoreRegistry;

verus! {

/// What a tick does to the target window.
#[derive(PartialEq, Eq, Structural, Debug, Clone, Copy)]
pub enum WindowAction {
    Show,
    Hide,
    Leave,
}

/// What a tick finds of the target window: gone, or alive with its current title.
#[derive(Debug)]
pub enum WindowProbe {
    Destroyed,
    Live(Option<String>),
}

/// The action of a tick that received `signal` (if any) for `window`, given the
/// ignored titles: nothing without a signal, for a destroyed window, or for a
/// window whose title is ignored; otherwise hide on `true` and show on `false`.
pub open spec fn tick_action(
    signal: Option<bool>,
    window: WindowProbe,
    ignored: Set<Seq<char>>,
) -> WindowAction {
    match (signal, window) {
        (Some(fullscreen), WindowProbe::Live(title)) => {
            if title is Some && ignored.contains(title->0@) {
                WindowAction::Leave
            } else if fullscreen {
                WindowAction::Hide
            } else {
                WindowAction::Show
            }
        },
        _ => WindowAction::Leave,
    }
}

/// Decides one poll tick.
pub fn poll_tick(signal: Option<bool>, window: &WindowProbe, registry: &IgnoreRegistry) -> (r:
    WindowAction)
    requires
        registry.wf(),
    ensures
        r == tick_action(signal, *window, registry@),
{
    match signal {
        None => WindowAction::Leave,
        Some(fullscreen) => match window {
            WindowProbe::Destroyed => WindowAction::Leave,
            WindowProbe::Live(title) => {
                let shown = match title {
                    Some(t) => registry.should_show(Some(t.as_str())),
                    None => registry.should_show(None),
                };
                if !shown {
                    WindowAction::Leave
                } else if fullscreen {
                    WindowAction::Hide
                } else {
                    WindowAction::Show
                }
            },
        },
    }
}

/// The titles registered after registering each of `titles` in turn on top of `ignored`.
pub open spec fn register_all(ignored: Set<Seq<char>>, titles: Seq<Seq<char>>) -> Set<Seq<char>>
    decreases titles.len(),
{
    if titles.len() == 0 {
        ignored
    } else {
        register_all(ignored, titles.drop_last()).insert(titles.last())
    }
}

/// Once a title is registered, every later tick on a live window with that
/// title leaves the window alone, whatever the signal and whatever else is
/// registered meanwhile.
pub proof fn lemma_registered_title_stays_ignored(
    ignored: Set<Seq<char>>,
    title: String,
    later: Seq<Seq<char>>,
    signal: Option<bool>,
)
    requires
        ignored.contains(title@),
    ensures
        register_all(ignored, later).contains(title@),
        tick_action(signal, WindowProbe::Live(Some(title)), register_all(ignored, later))
            == WindowAction::Leave,
    decreases later.len(),
{
    if later.len() > 0 {
        lemma_registered_title_stays_ignored(ignored, title, later.drop_last(), signal);
    }
}

/// Registering a title that is already registered leaves the set, and so its
/// size, unchanged.
pub proof fn lemma_register_is_idempotent(ignored: Set<Seq<char>>, title: Seq<char>)
    requires
        ignored.finite(),
    ensures
        ignored.insert(title).insert(title) == ignored.insert(title),
        ignored.insert(title).insert(title).len() == ignored.insert(title).len(),
{
    assert(ignored.insert(title).insert(title) =~= ignored.insert(title));
}

/// A tick on a destroyed window does nothing, whatever the signal.
pub proof fn lemma_destroyed_window_is_left(signal: Option<bool>, ignored: Set<Seq<char>>)
    ensures
        tick_action(signal, WindowProbe::Destroyed, ignored) == WindowAction::Leave,
{
}

} // verus!
