use vstd::prelude::*;

verus! {

/// Which content a panel shows; the display layer builds one view per kind.
#[derive(Clone, Copy, Debug, PartialEq, Eq, Structural)]
pub enum PanelView {
    Feed,
    Chat,
    Groups,
    Media,
    Share,
    Profile,
    Notifications,
    Search,
    Settings,
    VideoCall,
    CreatePost,
    Analytics,
    Events,
    Jobs,
    Achievements,
    Learning,
    Discover,
}

/// One entry of the registry: a stable id, the sidebar glyph and label, and
/// the view shown for it.
#[derive(Debug)]
pub struct PanelDescriptor {
    pub id: String,
    pub icon: String,
    pub label: String,
    pub view: PanelView,
}

/// Mathematical value of a descriptor.
pub struct DescriptorModel {
    pub id: Seq<char>,
    pub icon: Seq<char>,
    pub label: Seq<char>,
    pub view: PanelView,
}

impl View for PanelDescriptor {
    type V = DescriptorModel;

    open spec fn view(&self) -> DescriptorModel {
        DescriptorModel { id: self.id@, icon: self.icon@, label: self.label@, view: self.view }
    }
}

impl PanelDescriptor {
    pub fn new(id: String, icon: String, label: String, view: PanelView) -> (r: PanelDescriptor)
        ensures
            r.id@ == id@,
            r.icon@ == icon@,
            r.label@ == label@,
            r.view == view,
    {
        PanelDescriptor { id, icon, label, view }
    }
}

/// Errors of registration and lookup.
#[derive(Clone, Copy, Debug, PartialEq, Eq, Structural)]
pub enum RegistryError {
    /// `register` was given an id that is already taken.
    DuplicateId,
    /// `resolve` was given an id that nothing registered.
    UnknownId,
}

/// Some descriptor of `s` carries `id`.
pub open spec fn has_id(s: Seq<DescriptorModel>, id: Seq<char>) -> bool {
    exists|i: int| 0 <= i < s.len() && #[trigger] s[i].id == id
}

/// No two descriptors of `s` share an id.
pub open spec fn unique_ids(s: Seq<DescriptorModel>) -> bool {
    forall|i: int, j: int|
        0 <= i < s.len() && 0 <= j < s.len() && #[trigger] s[i].id == #[trigger] s[j].id ==> i == j
}

/// The descriptor registered under `id`, if any.
pub open spec fn lookup(s: Seq<DescriptorModel>, id: Seq<char>) -> Option<DescriptorModel> {
    if has_id(s, id) {
        Some(s[choose|i: int| 0 <= i < s.len() && #[trigger] s[i].id == id])
    } else {
        None
    }
}

/// The registry after registering `d`, and the outcome of that call.
pub open spec fn register_outcome(s: Seq<DescriptorModel>, d: DescriptorModel) -> (
    Seq<DescriptorModel>,
    Result<(), RegistryError>,
) {
    if has_id(s, d.id) {
        (s, Err(RegistryError::DuplicateId))
    } else {
        (s.push(d), Ok(()))
    }
}

/// Each registered panel resolves to exactly the descriptor registered
/// under its id.
pub proof fn lemma_resolve_registered(s: Seq<DescriptorModel>, i: int)
    requires
        unique_ids(s),
        0 <= i < s.len(),
    ensures
        lookup(s, s[i].id) == Some(s[i]),
{
    assert(has_id(s, s[i].id));
    let c = choose|j: int| 0 <= j < s.len() && #[trigger] s[j].id == s[i].id;
    assert(c == i);
}

/// Registering a descriptor under a fresh id succeeds, makes that id resolve
/// to the descriptor, keeps the ids unique, and leaves every other id
/// resolving as before.
pub proof fn lemma_register_then_resolve(s: Seq<DescriptorModel>, d: DescriptorModel)
    requires
        unique_ids(s),
        !has_id(s, d.id),
    ensures
        register_outcome(s, d).1 == Ok::<(), RegistryError>(()),
        unique_ids(register_outcome(s, d).0),
        lookup(register_outcome(s, d).0, d.id) == Some(d),
        forall|id: Seq<char>| id != d.id ==> lookup(register_outcome(s, d).0, id) == lookup(s, id),
{
    let t = s.push(d);
    assert(t[s.len() as int] == d);
    assert forall|i: int, j: int|
        0 <= i < t.len() && 0 <= j < t.len() && #[trigger] t[i].id == #[trigger] t[j].id
    implies i == j by {
        if i < s.len() && j < s.len() {
            assert(s[i].id == s[j].id);
        } else if i < s.len() {
            assert(s[i].id == d.id);
        } else if j < s.len() {
            assert(s[j].id == d.id);
        }
    }
    lemma_resolve_registered(t, s.len() as int);
    assert forall|id: Seq<char>| id != d.id implies lookup(t, id) == lookup(s, id) by {
        if has_id(s, id) {
            let k = choose|i: int| 0 <= i < s.len() && #[trigger] s[i].id == id;
            assert(t[k] == s[k]);
            lemma_resolve_registered(s, k);
            lemma_resolve_registered(t, k);
        } else {
            assert forall|i: int| 0 <= i < t.len() implies #[trigger] t[i].id != id by {
                if i < s.len() {
                    assert(t[i] == s[i]);
                }
            }
        }
    }
}

/// Whatever the first registration under an id did, a second one under the
/// same id fails with `DuplicateId` and leaves the registry unchanged.
pub proof fn lemma_register_twice(s: Seq<DescriptorModel>, d: DescriptorModel, e: DescriptorModel)
    requires
        unique_ids(s),
        e.id == d.id,
    ensures
        register_outcome(register_outcome(s, d).0, e) == (
            register_outcome(s, d).0,
            Err::<(), RegistryError>(RegistryError::DuplicateId),
        ),
{
    let t = register_outcome(s, d).0;
    if !has_id(s, d.id) {
        assert(t[s.len() as int].id == e.id);
    }
}

/// The panels of the application, in registration order.
pub struct ViewRegistry {
    panels: Vec<PanelDescriptor>,
}

impl View for ViewRegistry {
    type V = Seq<DescriptorModel>;

    closed spec fn view(&self) -> Seq<DescriptorModel> {
        self.panels@.map_values(|d: PanelDescriptor| d@)
    }
}

impl ViewRegistry {
    /// Ids are unique.
    pub open spec fn wf(&self) -> bool {
        unique_ids(self@)
    }

    pub fn new() -> (r: ViewRegistry)
        ensures
            r.wf(),
            r@ == Seq::<DescriptorModel>::empty(),
    {
        let r = ViewRegistry { panels: Vec::new() };
        assert(r@ =~= Seq::<DescriptorModel>::empty());
        r
    }

    /// Position of the descriptor with this id.
    fn position(&self, id: &String) -> (r: Option<usize>)
        ensures
            match r {
                Some(k) => k < self@.len() && self@[k as int].id == id@,
                None => !has_id(self@, id@),
            },
    {
        let mut i: usize = 0;
        while i < self.panels.len()
            invariant
                0 <= i <= self.panels@.len(),
                self@.len() == self.panels@.len(),
                forall|j: int| 0 <= j < i ==> self@[j].id != id@,
            decreases self.panels@.len() - i,
        {
            if self.panels[i].id == *id {
                return Some(i);
            }
            i = i + 1;
        }
        None
    }

    /// Whether some panel is registered under `id`.
    pub fn contains(&self, id: &String) -> (r: bool)
        ensures
            r == has_id(self@, id@),
    {
        self.position(id).is_some()
    }

    /// Adds `descriptor` at the end, unless its id is already taken.
    pub fn register(&mut self, descriptor: PanelDescriptor) -> (r: Result<(), RegistryError>)
        requires
            old(self).wf(),
        ensures
            final(self).wf(),
            (final(self)@, r) == register_outcome(old(self)@, descriptor@),
            r is Ok ==> lookup(final(self)@, descriptor@.id) == Some(descriptor@),
            r is Ok ==> forall|id: Seq<char>|
                id != descriptor@.id ==> lookup(final(self)@, id) == lookup(old(self)@, id),
    {
        if self.position(&descriptor.id).is_some() {
            return Err(RegistryError::DuplicateId);
        }
        let ghost d = descriptor@;
        self.panels.push(descriptor);
        assert(self@ =~= old(self)@.push(d));
        proof {
            lemma_register_then_resolve(old(self)@, d);
        }
        Ok(())
    }

    /// The descriptor registered under `id`.
    pub fn resolve(&self, id: &String) -> (r: Result<&PanelDescriptor, RegistryError>)
        requires
            self.wf(),
        ensures
            match r {
                Ok(d) => lookup(self@, id@) == Some(d@),
                Err(e) => e == RegistryError::UnknownId && lookup(self@, id@) is None,
            },
    {
        match self.position(id) {
            Some(k) => {
                proof {
                    let c = choose|i: int| 0 <= i < self@.len() && #[trigger] self@[i].id == id@;
                    assert(self@[k as int].id == id@);
                    assert(c == k);
                }
                Ok(&self.panels[k])
            },
            None => Err(RegistryError::UnknownId),
        }
    }

    /// Every descriptor, in registration order.
    pub fn all(&self) -> (r: &Vec<PanelDescriptor>)
        ensures
            r@.map_values(|d: PanelDescriptor| d@) == self@,
    {
        &self.panels
    }

    pub fn len(&self) -> (r: usize)
        ensures
            r == self@.len(),
    {
        self.panels.len()
    }
}

} // verus!
