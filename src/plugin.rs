use vstd::prelude::*;

verus! {

/// A capability plugin that the application shell attaches at startup.
#[derive(Clone, Copy, Debug, PartialEq, Eq, Structural, Hash)]
pub enum Plugin {
    /// Filesystem access.
    Filesystem,
    /// Opening URLs and files with the operating system's handlers.
    Opener,
    /// Clipboard access.
    Clipboard,
    /// Theming; its initializer edits the configuration context.
    Theme,
}

impl Plugin {
    /// Only the theme plugin's initializer is handed the configuration context.
    pub open spec fn spec_takes_context(self) -> bool {
        self == Plugin::Theme
    }

    pub fn takes_context(&self) -> (r: bool)
        ensures
            r == self.spec_takes_context(),
    {
        match self {
            Plugin::Theme => true,
            _ => false,
        }
    }
}

/// The order in which the shell attaches its plugins.
pub open spec fn plan() -> Seq<Plugin> {
    seq![Plugin::Filesystem, Plugin::Opener, Plugin::Clipboard, Plugin::Theme]
}

/// The number of plugins that the shell attaches.
pub const PLUGIN_COUNT: usize = 4;

/// The plugin attached at position `i` of the startup order.
pub fn planned_at(i: usize) -> (p: Plugin)
    requires
        i < PLUGIN_COUNT,
    ensures
        p == plan()[i as int],
{
    if i == 0 {
        Plugin::Filesystem
    } else if i == 1 {
        Plugin::Opener
    } else if i == 2 {
        Plugin::Clipboard
    } else {
        Plugin::Theme
    }
}

/// The plugins in the order in which the shell attaches them.
pub fn registration_plan() -> (r: Vec<Plugin>)
    ensures
        r@ == plan(),
{
    let mut r: Vec<Plugin> = Vec::new();
    let mut i: usize = 0;
    while i < PLUGIN_COUNT
        invariant
            i <= PLUGIN_COUNT,
            r@ == plan().take(i as int),
        decreases PLUGIN_COUNT - i,
    {
        let p = planned_at(i);
        r.push(p);
        assert(r@ =~= plan().take(i + 1));
        i = i + 1;
    }
    assert(r@ =~= plan());
    r
}

/// Every plugin stands in the startup order exactly once.
pub proof fn lemma_plan_lists_each_plugin_once()
    ensures
        plan().len() == PLUGIN_COUNT,
        forall|p: Plugin| #[trigger] plan().to_multiset().count(p) == 1,
{
    broadcast use vstd::seq_lib::group_to_multiset_ensures;

    let s = plan();
    assert(s =~= seq![Plugin::Filesystem].push(Plugin::Opener).push(Plugin::Clipboard).push(
        Plugin::Theme,
    ));
    assert(seq![Plugin::Filesystem] =~= Seq::<Plugin>::empty().push(Plugin::Filesystem));
    assert forall|p: Plugin| #[trigger] s.to_multiset().count(p) == 1 by {
        match p {
            Plugin::Filesystem => {},
            Plugin::Opener => {},
            Plugin::Clipboard => {},
            Plugin::Theme => {},
        }
    }
}

/// Attaching the same plugins in another order attaches the same set of plugins.
pub proof fn lemma_attached_set_ignores_order(a: Seq<Plugin>, b: Seq<Plugin>)
    requires
        a.to_multiset() == b.to_multiset(),
    ensures
        a.to_set() == b.to_set(),
{
    broadcast use vstd::seq_lib::group_to_multiset_ensures;

    assert forall|p: Plugin| a.to_set().contains(p) <==> b.to_set().contains(p) by {
        assert(a.contains(p) <==> a.to_multiset().count(p) > 0);
        assert(b.contains(p) <==> b.to_multiset().count(p) > 0);
    }
    assert(a.to_set() =~= b.to_set());
}

/// Whatever order the three plugins that take no context are attached in, once the
/// theme plugin follows them the shell has attached the same set as its own order gives.
pub proof fn lemma_context_free_plugins_commute(order: Seq<Plugin>)
    requires
        order.to_multiset() == plan().take(3).to_multiset(),
    ensures
        order.push(Plugin::Theme).to_set() == plan().to_set(),
{
    broadcast use vstd::seq_lib::group_to_multiset_ensures;

    assert(plan() =~= plan().take(3).push(Plugin::Theme));
    assert(order.push(Plugin::Theme).to_multiset() == plan().to_multiset());
    lemma_attached_set_ignores_order(order.push(Plugin::Theme), plan());
}

} // verus!
