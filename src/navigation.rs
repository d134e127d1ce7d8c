use vstd::prelude::*;
use crate::registry::{has_id, unique_ids, DescriptorModel, ViewRegistry};

verus! {

/// Errors of navigation.
#[derive(Clone, Copy, Debug, PartialEq, Eq, Structural)]
pub enum NavError {
    /// The id names no registered panel.
    UnknownId,
    /// A selection arrived while the previous one was still being displayed.
    Reentrant,
}

/// The one notification a successful selection produces: the view container
/// must now show `panel`.
#[derive(Debug)]
pub struct Refresh {
    pub panel: String,
}

/// Mathematical value of the controller.
pub struct NavModel {
    pub panels: Seq<DescriptorModel>,
    pub active: Seq<char>,
    pub refreshing: bool,
}

/// Ids are unique and the active id names a registered panel.
pub open spec fn nav_wf(m: NavModel) -> bool {
    unique_ids(m.panels) && has_id(m.panels, m.active)
}

/// The state after `select(id)` and the panel its notification names.
/// An unknown id is refused first; a known one is refused while the previous
/// notification is still being handled.
pub open spec fn select_outcome(m: NavModel, id: Seq<char>) -> (NavModel, Result<Seq<char>, NavError>) {
    if !has_id(m.panels, id) {
        (m, Err(NavError::UnknownId))
    } else if m.refreshing {
        (m, Err(NavError::Reentrant))
    } else {
        (NavModel { active: id, refreshing: true, ..m }, Ok(id))
    }
}

/// The state once the view container has handled the notification.
pub open spec fn refresh_done_outcome(m: NavModel) -> NavModel {
    NavModel { refreshing: false, ..m }
}

/// Holds the active panel and decides what each selection does.
pub struct NavigationController {
    registry: ViewRegistry,
    active: String,
    refreshing: bool,
}

impl View for NavigationController {
    type V = NavModel;

    closed spec fn view(&self) -> NavModel {
        NavModel { panels: self.registry@, active: self.active@, refreshing: self.refreshing }
    }
}

impl NavigationController {
    pub open spec fn wf(&self) -> bool {
        nav_wf(self@)
    }

    /// Starts on `default_panel`, which must be registered.
    pub fn new(registry: ViewRegistry, default_panel: String) -> (r: Result<
        NavigationController,
        NavError,
    >)
        requires
            registry.wf(),
        ensures
            match r {
                Ok(c) => c.wf() && c@.panels == registry@ && c@.active == default_panel@
                    && !c@.refreshing,
                Err(e) => e == NavError::UnknownId && !has_id(registry@, default_panel@),
            },
    {
        if !registry.contains(&default_panel) {
            return Err(NavError::UnknownId);
        }
        Ok(NavigationController { registry, active: default_panel, refreshing: false })
    }

    /// Makes `id` the active panel and hands back the notification for the
    /// view container, which must call `refresh_done` once it has shown it.
    pub fn select(&mut self, id: &String) -> (r: Result<Refresh, NavError>)
        requires
            old(self).wf(),
        ensures
            final(self).wf(),
            final(self)@ == select_outcome(old(self)@, id@).0,
            match r {
                Ok(n) => select_outcome(old(self)@, id@).1 == Ok::<Seq<char>, NavError>(n.panel@),
                Err(e) => select_outcome(old(self)@, id@).1 == Err::<Seq<char>, NavError>(e),
            },
    {
        if !self.registry.contains(id) {
            return Err(NavError::UnknownId);
        }
        if self.refreshing {
            return Err(NavError::Reentrant);
        }
        self.active = id.clone();
        self.refreshing = true;
        Ok(Refresh { panel: id.clone() })
    }

    /// Records that the view container has handled the last notification.
    pub fn refresh_done(&mut self)
        requires
            old(self).wf(),
        ensures
            final(self).wf(),
            final(self)@ == refresh_done_outcome(old(self)@),
    {
        self.refreshing = false;
    }

    /// The active panel id.
    pub fn current(&self) -> (r: &String)
        ensures
            r@ == self@.active,
    {
        &self.active
    }

    /// Whether a notification is still being handled.
    pub fn is_refreshing(&self) -> (r: bool)
        ensures
            r == self@.refreshing,
    {
        self.refreshing
    }

    /// The registry the controller navigates over.
    pub fn registry(&self) -> (r: &ViewRegistry)
        ensures
            r@ == self@.panels,
            self.wf() ==> r.wf(),
    {
        &self.registry
    }
}

/// After a successful selection of `id` the active panel is `id`, and the
/// call produced exactly one notification, which names `id`.
pub proof fn lemma_select_sets_current(m: NavModel, id: Seq<char>)
    requires
        nav_wf(m),
        has_id(m.panels, id),
        !m.refreshing,
    ensures
        select_outcome(m, id).1 == Ok::<Seq<char>, NavError>(id),
        select_outcome(m, id).0.active == id,
        nav_wf(select_outcome(m, id).0),
        select_outcome(m, id).0.panels == m.panels,
{
}

/// Selecting an id that is not registered fails with `UnknownId` and changes
/// nothing, the active panel included.
pub proof fn lemma_select_unknown(m: NavModel, id: Seq<char>)
    requires
        !has_id(m.panels, id),
    ensures
        select_outcome(m, id) == (m, Err::<Seq<char>, NavError>(NavError::UnknownId)),
        select_outcome(m, id).0.active == m.active,
{
}

/// While a notification is being handled, no selection changes the state.
pub proof fn lemma_no_reentrant_switch(m: NavModel, id: Seq<char>)
    requires
        m.refreshing,
    ensures
        select_outcome(m, id).0 == m,
        select_outcome(m, id).1 is Err,
{
}

} // verus!
