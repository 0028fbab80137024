//! Index catalogs that a handle has loaded.
use vstd::prelude::*;

use crate::error::HelixDbError;
use crate::migrations::definitions::{
    DefinitionShape, IndexElementKind, SecondaryIndexKind, ValidatedDynamicIndexDefinition,
};
use crate::mode::HelixDbMode;
use crate::scope::DataScope;

verus! {

/// One active index of a scope.
#[derive(Debug)]
pub struct ActiveIndexHandle {
    pub scope: DataScope,
    pub index_id: u64,
    pub generation: u64,
    pub definition: ValidatedDynamicIndexDefinition,
}

/// An active index as a mathematical value.
#[verifier::ext_equal]
pub struct HandleShape {
    pub scope: DataScope,
    pub index_id: u64,
    pub generation: u64,
    pub definition: DefinitionShape,
}

impl View for ActiveIndexHandle {
    type V = HandleShape;

    open spec fn view(&self) -> HandleShape {
        HandleShape {
            scope: self.scope,
            index_id: self.index_id,
            generation: self.generation,
            definition: self.definition@,
        }
    }
}

impl ActiveIndexHandle {
    /// Whether the handle comes before another one: by scope, then by index, then by
    /// generation.
    pub open spec fn before(self, other: ActiveIndexHandle) -> bool {
        ||| self.scope.rank() < other.scope.rank()
        ||| self.scope.rank() == other.scope.rank() && (self.index_id < other.index_id || (
        self.index_id == other.index_id && self.generation < other.generation))
    }

    /// Whether the handle comes before another one.
    pub fn comes_before(&self, other: &ActiveIndexHandle) -> (comes_before: bool)
        ensures
            comes_before == self.before(*other),
    {
        if self.scope.precedes(&other.scope) {
            true
        } else if other.scope.precedes(&self.scope) {
            false
        } else {
            self.index_id < other.index_id || (self.index_id == other.index_id && self.generation
                < other.generation)
        }
    }

    /// A copy of the handle.
    pub fn duplicate(&self) -> (copy: Self)
        ensures
            copy@ == self@,
    {
        ActiveIndexHandle {
            scope: self.scope,
            index_id: self.index_id,
            generation: self.generation,
            definition: self.definition.duplicate(),
        }
    }
}

/// Whether handles stand in order.
pub open spec fn in_order(handles: Seq<ActiveIndexHandle>) -> bool {
    forall|i: int, j: int|
        0 <= i < j < handles.len() ==> !(#[trigger] handles[j]).before(#[trigger] handles[i])
}

/// Handles as mathematical values.
pub open spec fn handle_views(handles: Seq<ActiveIndexHandle>) -> Seq<HandleShape> {
    Seq::new(handles.len(), |i: int| handles[i]@)
}

/// The active indexes of one scope.
#[derive(Debug)]
pub struct LoadedScopeCatalog {
    scope: DataScope,
    handles: Vec<ActiveIndexHandle>,
}

/// Whether a definition is a node equality index on a label and a property.
pub open spec fn is_node_equality(
    definition: DefinitionShape,
    label: Seq<char>,
    property: Seq<char>,
) -> bool {
    definition matches DefinitionShape::Secondary(shape) && shape.element_type is Node
        && shape.kind is Equality && shape.label == label && shape.property == property
}

impl LoadedScopeCatalog {
    /// The scope of the catalog.
    pub closed spec fn owner(self) -> DataScope {
        self.scope
    }

    /// The active indexes of the catalog.
    pub closed spec fn handles(self) -> Seq<HandleShape> {
        handle_views(self.handles@)
    }

    /// A catalog without indexes.
    pub fn new(scope: DataScope) -> (catalog: Self)
        ensures
            catalog.owner() == scope,
            catalog.handles() == Seq::<HandleShape>::empty(),
    {
        let catalog = LoadedScopeCatalog { scope, handles: Vec::new() };
        assert(catalog.handles() =~= Seq::<HandleShape>::empty());
        catalog
    }

    /// The scope of the catalog.
    pub fn scope(&self) -> (scope: DataScope)
        ensures
            scope == self.owner(),
    {
        self.scope
    }

    /// Adds an active index.
    pub fn insert_active(&mut self, handle: ActiveIndexHandle)
        ensures
            final(self).owner() == old(self).owner(),
            final(self).handles() == old(self).handles().push(handle@),
    {
        let ghost before = self.handles@;
        self.handles.push(handle);
        assert(handle_views(self.handles@) =~= handle_views(before).push(handle@));
    }

    /// Copies of the active indexes, in their order.
    pub fn active_handles(&self) -> (handles: Vec<ActiveIndexHandle>)
        ensures
            handle_views(handles@) == self.handles(),
    {
        let mut handles: Vec<ActiveIndexHandle> = Vec::new();
        let mut position: usize = 0;
        while position < self.handles.len()
            invariant
                position <= self.handles.len(),
                handles@.len() == position,
                forall|i: int| 0 <= i < position ==> (#[trigger] handles@[i])@ == self.handles@[i]@,
            decreases self.handles.len() - position,
        {
            handles.push(self.handles[position].duplicate());
            position = position + 1;
        }
        assert(handle_views(handles@) =~= self.handles());
        handles
    }

    /// Whether nodes with a label are found by the value of a property.
    pub fn has_scoped_equality_index(&self, label: &str, property: &str) -> (has: bool)
        ensures
            has == exists|i: int|
                0 <= i < self.handles().len() && is_node_equality(
                    (#[trigger] self.handles()[i]).definition,
                    label@,
                    property@,
                ),
    {
        let wanted_label = label.to_owned();
        let wanted_property = property.to_owned();
        let mut position: usize = 0;
        while position < self.handles.len()
            invariant
                position <= self.handles.len(),
                wanted_label@ == label@,
                wanted_property@ == property@,
                forall|i: int|
                    0 <= i < position ==> !is_node_equality(
                        (#[trigger] self.handles()[i]).definition,
                        label@,
                        property@,
                    ),
            decreases self.handles.len() - position,
        {
            let found = match &self.handles[position].definition {
                ValidatedDynamicIndexDefinition::Secondary(definition) => {
                    let node = matches!(definition.element_type, IndexElementKind::Node);
                    let equality = matches!(definition.kind, SecondaryIndexKind::Equality);
                    node && equality && definition.label == wanted_label
                        && definition.property == wanted_property
                },
                _ => false,
            };
            assert(self.handles()[position as int].definition
                == self.handles@[position as int].definition@);
            if found {
                return true;
            }
            position = position + 1;
        }
        false
    }
}

/// Number of times that a catalog has been loaded; it starts at one.
#[derive(Debug, Clone, Copy, PartialEq, Eq, Structural)]
pub struct CatalogGeneration(u64);

impl CatalogGeneration {
    #[verifier::type_invariant]
    spec fn is_positive(self) -> bool {
        self.0 > 0
    }

    /// The number.
    pub closed spec fn number(self) -> u64 {
        self.0
    }

    /// The generation of the first load.
    pub fn initial() -> (generation: Self)
        ensures
            generation.number() == 1,
    {
        CatalogGeneration(1)
    }

    /// The generation that follows.
    pub fn next(self) -> (generation: Self)
        requires
            self.number() < u64::MAX,
        ensures
            generation.number() == self.number() + 1,
    {
        CatalogGeneration(self.0 + 1)
    }

    /// The number.
    pub fn get(self) -> (number: u64)
        ensures
            number == self.number(),
            number > 0,
    {
        proof {
            use_type_invariant(&self);
        }
        self.0
    }
}

/// One loaded catalog and its generation.
#[derive(Debug)]
pub struct LoadedRuntimeCatalog {
    catalog: LoadedScopeCatalog,
    generation: CatalogGeneration,
}

impl LoadedRuntimeCatalog {
    /// The loaded catalog as a mathematical value.
    pub closed spec fn shape(self) -> LoadedShape {
        LoadedShape { handles: self.catalog.handles(), generation: self.generation.number() }
    }

    spec fn scope_rank(self) -> int {
        self.catalog.owner().rank()
    }
}

/// A loaded catalog as a mathematical value.
#[verifier::ext_equal]
pub struct LoadedShape {
    pub handles: Seq<HandleShape>,
    pub generation: u64,
}

/// The catalogs that a handle has loaded, by scope.
#[derive(Debug)]
pub struct HelixRuntimeState {
    loaded: Vec<LoadedRuntimeCatalog>,
}

spec fn scopes_ascend(loaded: Seq<LoadedRuntimeCatalog>) -> bool {
    forall|i: int, j: int|
        0 <= i < j < loaded.len() ==> (#[trigger] loaded[i]).scope_rank() < (
        #[trigger] loaded[j]).scope_rank()
}

spec fn holds_scope(loaded: Seq<LoadedRuntimeCatalog>, scope: DataScope) -> bool {
    exists|i: int| 0 <= i < loaded.len() && (#[trigger] loaded[i]).catalog.owner() == scope
}

spec fn position_of(loaded: Seq<LoadedRuntimeCatalog>, scope: DataScope) -> int {
    choose|i: int| 0 <= i < loaded.len() && (#[trigger] loaded[i]).catalog.owner() == scope
}

proof fn lemma_position(loaded: Seq<LoadedRuntimeCatalog>, at: int)
    requires
        scopes_ascend(loaded),
        0 <= at < loaded.len(),
    ensures
        holds_scope(loaded, loaded[at].catalog.owner()),
        position_of(loaded, loaded[at].catalog.owner()) == at,
{
    let scope = loaded[at].catalog.owner();
    let found = position_of(loaded, scope);
    assert(loaded[at].catalog.owner() == scope);
    assert(loaded[found].catalog.owner() == scope);
    assert(loaded[found].scope_rank() == loaded[at].scope_rank());
    if found < at {
        assert(loaded[found].scope_rank() < loaded[at].scope_rank());
    } else if at < found {
        assert(loaded[at].scope_rank() < loaded[found].scope_rank());
    }
}

impl View for HelixRuntimeState {
    type V = Map<DataScope, LoadedShape>;

    closed spec fn view(&self) -> Map<DataScope, LoadedShape> {
        Map::new(
            |scope: DataScope| holds_scope(self.loaded@, scope),
            |scope: DataScope| self.loaded@[position_of(self.loaded@, scope)].shape(),
        )
    }
}

/// Whether scopes stand in ascending order.
pub open spec fn ascending_scopes(scopes: Seq<DataScope>) -> bool {
    forall|i: int, j: int|
        0 <= i < j < scopes.len() ==> (#[trigger] scopes[i]).rank() < (#[trigger] scopes[j]).rank()
}

impl HelixRuntimeState {
    #[verifier::type_invariant]
    spec fn is_ordered(self) -> bool {
        scopes_ascend(self.loaded@)
    }

    /// The state of a handle that has loaded one catalog.
    pub fn new(scope: DataScope, catalog: LoadedScopeCatalog) -> (state: Self)
        requires
            catalog.owner() == scope,
        ensures
            state@ == Map::<DataScope, LoadedShape>::empty().insert(
                scope,
                (LoadedShape { handles: catalog.handles(), generation: 1 }),
            ),
    {
        let mut loaded: Vec<LoadedRuntimeCatalog> = Vec::new();
        loaded.push(LoadedRuntimeCatalog { catalog, generation: CatalogGeneration::initial() });
        let state = HelixRuntimeState { loaded };
        proof {
            lemma_position(state.loaded@, 0);
            assert(state@ =~= Map::<DataScope, LoadedShape>::empty().insert(
                scope,
                (LoadedShape { handles: catalog.handles(), generation: 1 }),
            ));
        }
        state
    }

    /// Position of a scope, or where it belongs.
    fn find(&self, scope: DataScope) -> (found: (bool, usize))
        ensures
            found.0 == self@.contains_key(scope),
            found.0 ==> found.1 < self.loaded@.len() && self.loaded@[found.1 as int].catalog.owner()
                == scope && self@[scope] == self.loaded@[found.1 as int].shape(),
            found.1 <= self.loaded@.len(),
            forall|i: int|
                0 <= i < found.1 ==> (#[trigger] self.loaded@[i]).scope_rank() < scope.rank(),
            !found.0 ==> forall|i: int|
                found.1 <= i < self.loaded@.len() ==> scope.rank() < (
                #[trigger] self.loaded@[i]).scope_rank(),
            scopes_ascend(self.loaded@),
    {
        proof {
            use_type_invariant(self);
        }
        let mut position: usize = 0;
        while position < self.loaded.len() && self.loaded[position].catalog.scope().precedes(&scope)
            invariant
                position <= self.loaded.len(),
                forall|i: int|
                    0 <= i < position ==> (#[trigger] self.loaded@[i]).scope_rank() < scope.rank(),
            decreases self.loaded.len() - position,
        {
            position = position + 1;
        }
        if position < self.loaded.len() && self.loaded[position].catalog.scope() == scope {
            proof {
                lemma_position(self.loaded@, position as int);
            }
            return (true, position);
        }
        assert(forall|i: int|
            position <= i < self.loaded@.len() ==> scope.rank() < (
            #[trigger] self.loaded@[i]).scope_rank()) by {
            assert forall|i: int| position <= i < self.loaded@.len() implies scope.rank() < (
            #[trigger] self.loaded@[i]).scope_rank() by {
                crate::scope::law_rank_identifies_scope(
                    scope,
                    self.loaded@[position as int].catalog.owner(),
                );
                if i > position {
                    assert(self.loaded@[position as int].scope_rank()
                        < self.loaded@[i].scope_rank());
                }
            }
        }
        assert(!holds_scope(self.loaded@, scope)) by {
            if holds_scope(self.loaded@, scope) {
                let at = position_of(self.loaded@, scope);
                assert(self.loaded@[at].scope_rank() == scope.rank());
            }
        }
        (false, position)
    }

    /// Whether a scope has been loaded.
    pub fn is_loaded(&self, scope: DataScope) -> (loaded: bool)
        ensures
            loaded == self@.contains_key(scope),
    {
        self.find(scope).0
    }

    /// Replaces the catalog of one scope; the generation counts the loads of the scope.
    pub fn replace_catalog(&mut self, scope: DataScope, catalog: LoadedScopeCatalog)
        requires
            catalog.owner() == scope,
            old(self)@.contains_key(scope) ==> old(self)@[scope].generation < u64::MAX,
        ensures
            final(self)@ == old(self)@.insert(
                scope,
                (LoadedShape {
                    handles: catalog.handles(),
                    generation: if old(self)@.contains_key(scope) {
                        (old(self)@[scope].generation + 1) as u64
                    } else {
                        1
                    },
                }),
            ),
    {
        let (found, position) = self.find(scope);
        let generation = if found {
            self.loaded[position].generation.next()
        } else {
            CatalogGeneration::initial()
        };
        let entry = LoadedRuntimeCatalog { catalog, generation };
        let ghost before = self.loaded@;
        let mut whole = HelixRuntimeState { loaded: Vec::new() };
        std::mem::swap(&mut whole, self);
        let HelixRuntimeState { mut loaded } = whole;
        if found {
            loaded.set(position, entry);
        } else {
            loaded.insert(position, entry);
        }
        let ghost after = loaded@;
        assert(scopes_ascend(after)) by {
            if found {
                assert(after == before.update(position as int, entry));
                assert forall|i: int, j: int| 0 <= i < j < after.len() implies (
                #[trigger] after[i]).scope_rank() < (#[trigger] after[j]).scope_rank() by {
                    assert(before[i].scope_rank() < before[j].scope_rank());
                    assert(before[position as int].scope_rank() == scope.rank());
                }
            } else {
                assert(after == before.insert(position as int, entry));
                assert forall|i: int, j: int| 0 <= i < j < after.len() implies (
                #[trigger] after[i]).scope_rank() < (#[trigger] after[j]).scope_rank() by {
                    let left = if i < position {
                        i
                    } else {
                        i - 1
                    };
                    let right = if j < position {
                        j
                    } else {
                        j - 1
                    };
                    if i != position && j != position {
                        assert(before[left].scope_rank() < before[right].scope_rank());
                    } else if i == position {
                        assert(scope.rank() < before[right].scope_rank());
                    } else {
                        assert(before[left].scope_rank() < scope.rank());
                    }
                }
            }
        }
        *self = HelixRuntimeState { loaded };
        proof {
            assert(after[position as int] == entry);
            lemma_position(after, position as int);
            let expected = old(self)@.insert(scope, entry.shape());
            assert forall|other: DataScope| #[trigger]
                self@.contains_key(other) == expected.contains_key(other) by {
                if holds_scope(before, other) {
                    let at = position_of(before, other);
                    let moved = if !found && at >= position {
                        at + 1
                    } else {
                        at
                    };
                    assert(before[at].catalog.owner() == other);
                    assert(after[moved].catalog.owner() == other);
                }
                if holds_scope(after, other) && other != scope {
                    let at = position_of(after, other);
                    let moved = if !found && at > position {
                        at - 1
                    } else {
                        at
                    };
                    assert(after[at].catalog.owner() == other);
                    assert(before[moved] == after[at]);
                    assert(before[moved].catalog.owner() == other);
                }
            }
            assert forall|other: DataScope| #[trigger] expected.contains_key(other) implies self@[other]
                == expected[other] by {
                if other != scope {
                    assert(self@.contains_key(other));
                    let at = position_of(before, other);
                    let moved = if !found && at >= position {
                        at + 1
                    } else {
                        at
                    };
                    assert(before[at].catalog.owner() == other);
                    assert(after[moved] == before[at]);
                    lemma_position(after, moved);
                }
            }
            assert(self@ =~= expected);
        }
    }

    /// The catalog of a loaded scope.
    pub fn catalog(&self, scope: DataScope) -> (catalog: &LoadedScopeCatalog)
        requires
            self@.contains_key(scope),
        ensures
            catalog.owner() == scope,
            catalog.handles() == self@[scope].handles,
    {
        let (_, position) = self.find(scope);
        &self.loaded[position].catalog
    }

    /// The generation of a loaded scope.
    pub fn generation(&self, scope: DataScope) -> (generation: CatalogGeneration)
        requires
            self@.contains_key(scope),
        ensures
            generation.number() == self@[scope].generation,
    {
        let (_, position) = self.find(scope);
        self.loaded[position].generation
    }

    /// The active indexes of a scope; none where it has not been loaded.
    pub fn active_handles(&self, scope: DataScope) -> (handles: Vec<ActiveIndexHandle>)
        ensures
            handle_views(handles@) == if self@.contains_key(scope) {
                self@[scope].handles
            } else {
                Seq::empty()
            },
    {
        let (found, position) = self.find(scope);
        if found {
            self.loaded[position].catalog.active_handles()
        } else {
            let handles: Vec<ActiveIndexHandle> = Vec::new();
            assert(handle_views(handles@) =~= Seq::empty());
            handles
        }
    }

    /// Every scope that has been loaded, in ascending order.
    pub fn loaded_scopes(&self) -> (scopes: Vec<DataScope>)
        ensures
            ascending_scopes(scopes@),
            forall|scope: DataScope| scopes@.contains(scope) <==> self@.contains_key(scope),
    {
        proof {
            use_type_invariant(self);
        }
        let mut scopes: Vec<DataScope> = Vec::new();
        let mut position: usize = 0;
        while position < self.loaded.len()
            invariant
                position <= self.loaded.len(),
                scopes@.len() == position,
                forall|i: int|
                    0 <= i < position ==> (#[trigger] scopes@[i])
                        == self.loaded@[i].catalog.owner(),
            decreases self.loaded.len() - position,
        {
            scopes.push(self.loaded[position].catalog.scope());
            position = position + 1;
        }
        proof {
            assert forall|i: int, j: int| 0 <= i < j < scopes@.len() implies (
            #[trigger] scopes@[i]).rank() < (#[trigger] scopes@[j]).rank() by {
                assert(self.loaded@[i].scope_rank() < self.loaded@[j].scope_rank());
            }
            assert forall|scope: DataScope| scopes@.contains(scope) <==> self@.contains_key(
                scope,
            ) by {
                if scopes@.contains(scope) {
                    let at = scopes@.index_of(scope);
                    assert(self.loaded@[at].catalog.owner() == scope);
                }
                if holds_scope(self.loaded@, scope) {
                    let at = position_of(self.loaded@, scope);
                    assert(scopes@[at] == scope);
                }
            }
        }
        scopes
    }

    /// The active text indexes of scopes, scope by scope.
    fn text_handles(&self, scopes: &Vec<DataScope>) -> (handles: Vec<ActiveIndexHandle>)
        ensures
            handle_views(handles@) == texts_of(self@, scopes@),
    {
        let mut found: Vec<ActiveIndexHandle> = Vec::new();
        let mut position: usize = 0;
        assert(scopes@.take(0) =~= Seq::empty());
        assert(handle_views(found@) =~= texts_of(self@, scopes@.take(0)));
        while position < scopes.len()
            invariant
                position <= scopes.len(),
                handle_views(found@) == texts_of(self@, scopes@.take(position as int)),
            decreases scopes.len() - position,
        {
            let scope = scopes[position];
            let active = self.active_handles(scope);
            let ghost before = handle_views(found@);
            let ghost all = active@;
            let ghost views = handle_views(all);
            assert(text_only(views.take(0)) =~= Seq::empty());
            assert(before + text_only(views.take(0)) =~= before);
            for handle in iter: active
                invariant
                    iter.seq() == all,
                    views == handle_views(all),
                    handle_views(found@) == before + text_only(views.take(iter.index() as int)),
            {
                let ghost at = iter.index() as int;
                let ghost shorter = found@;
                proof {
                    assert(views.take(at + 1).drop_last() =~= views.take(at));
                    assert(views.take(at + 1).last() == handle@);
                }
                let is_text = matches!(
                    handle.definition,
                    ValidatedDynamicIndexDefinition::Text(_)
                );
                if is_text {
                    found.push(handle);
                    assert(handle_views(found@) =~= handle_views(shorter).push(handle@));
                }
            }
            assert(views.take(views.len() as int) =~= views);
            proof {
                let longer = scopes@.take(position + 1);
                assert(longer.drop_last() =~= scopes@.take(position as int));
                assert(longer.last() == scope);
            }
            position = position + 1;
        }
        assert(scopes@.take(scopes@.len() as int) =~= scopes@);
        found
    }

    /// The active text indexes of every loaded scope, in order, up to a limit.
    pub fn text_handles_to_warm(&self, limit: Option<usize>) -> (handles: Vec<ActiveIndexHandle>)
        ensures
            exists|scopes: Seq<DataScope>, all: Seq<ActiveIndexHandle>|
                lists_loaded(self@, scopes) && #[trigger] is_ordered_form(
                    all,
                    texts_of(self@, scopes),
                ) && handles@ == cut(all, limit),
    {
        let scopes = self.loaded_scopes();
        let found = self.text_handles(&scopes);
        let mut ordered = crate::warm::ordered_handles(found);
        let ghost all = ordered@;
        assert(lists_loaded(self@, scopes@));
        assert(is_ordered_form(all, texts_of(self@, scopes@)));
        if let Some(limit) = limit {
            if ordered.len() > limit {
                ordered.truncate(limit);
            }
        }
        assert(ordered@ =~= cut(all, limit));
        ordered
    }
}

/// Whether a list names exactly the loaded scopes, in ascending order.
pub open spec fn lists_loaded(
    state: Map<DataScope, LoadedShape>,
    scopes: Seq<DataScope>,
) -> bool {
    &&& ascending_scopes(scopes)
    &&& forall|scope: DataScope| scopes.contains(scope) <==> state.contains_key(scope)
}

/// The text indexes among active ones.
pub open spec fn text_only(handles: Seq<HandleShape>) -> Seq<HandleShape>
    decreases handles.len(),
{
    if handles.len() == 0 {
        Seq::empty()
    } else {
        let before = text_only(handles.drop_last());
        if handles.last().definition is Text {
            before.push(handles.last())
        } else {
            before
        }
    }
}

/// The active text indexes of scopes, scope by scope.
pub open spec fn texts_of(state: Map<DataScope, LoadedShape>, scopes: Seq<DataScope>) -> Seq<
    HandleShape,
>
    decreases scopes.len(),
{
    if scopes.len() == 0 {
        Seq::empty()
    } else {
        let scope = scopes.last();
        texts_of(state, scopes.drop_last()) + text_only(
            if state.contains_key(scope) {
                state[scope].handles
            } else {
                Seq::empty()
            },
        )
    }
}

/// Whether handles are the given ones, brought into order.
pub open spec fn is_ordered_form(handles: Seq<ActiveIndexHandle>, given: Seq<HandleShape>) -> bool {
    in_order(handles) && handle_views(handles).to_multiset() == given.to_multiset()
}

/// The first handles up to a limit.
pub open spec fn cut(handles: Seq<ActiveIndexHandle>, limit: Option<usize>) -> Seq<
    ActiveIndexHandle,
> {
    match limit {
        Some(limit) if limit < handles.len() => handles.take(limit as int),
        _ => handles,
    }
}

/// Loading a scope again changes no other scope, makes exactly the new indexes visible and
/// moves the generation on by one.
pub proof fn law_replacement_is_local(
    state: Map<DataScope, LoadedShape>,
    scope: DataScope,
    other: DataScope,
    handles: Seq<HandleShape>,
    generation: u64,
)
    requires
        other != scope,
    ensures
        ({
            let after = state.insert(scope, (LoadedShape { handles, generation }));
            &&& after.contains_key(other) == state.contains_key(other)
            &&& state.contains_key(other) ==> after[other] == state[other]
            &&& after[scope].handles == handles
        }),
{
}

/// What a reader does with a catalog that it has scanned.
pub fn accept_reader_scan(view_changed: bool) -> (accepted: Result<(), HelixDbError>)
    ensures
        accepted is Ok <==> !view_changed,
        accepted matches Err(error) ==> error == HelixDbError::RequestReadViewChanged,
{
    if view_changed {
        Err(HelixDbError::RequestReadViewChanged)
    } else {
        Ok(())
    }
}

/// Whether operations are reconciled before a catalog is scanned.
pub fn reconciles_before_scan(mode: HelixDbMode) -> (reconciles: bool)
    ensures
        reconciles == (mode is Writer),
{
    matches!(mode, HelixDbMode::Writer)
}

/// Whether evidence that planning has observed a catalog holds for a request: the runtime
/// that issued it is alive and the same, and so is the scope.
pub fn catalog_refresh_proof_belongs_to(
    issuer: Option<u64>,
    runtime: u64,
    observed: DataScope,
    scope: DataScope,
) -> (belongs: bool)
    ensures
        belongs == (issuer == Some(runtime) && observed == scope),
{
    match issuer {
        Some(issuer) => issuer == runtime && observed == scope,
        None => false,
    }
}

/// Handles are ordered by scope, then by index, then by generation, and of two that differ in
/// one of these exactly one comes first.
pub proof fn law_handles_are_ordered(left: ActiveIndexHandle, right: ActiveIndexHandle)
    ensures
        left.before(right) ==> !right.before(left),
        left.scope == right.scope && left.index_id == right.index_id && left.generation
            < right.generation ==> left.before(right),
        left.scope == right.scope && left.index_id < right.index_id ==> left.before(right),
        left.scope.rank() < right.scope.rank() ==> left.before(right),
        left.before(right) || right.before(left) || (left.scope == right.scope && left.index_id
            == right.index_id && left.generation == right.generation),
{
    crate::scope::law_rank_identifies_scope(left.scope, right.scope);
}

/// A handle as a mathematical value has all that the handle has.
pub proof fn law_handles_are_seen_as_they_are(handle: ActiveIndexHandle)
    ensures
        handle@.scope == handle.scope && handle@.index_id == handle.index_id && handle@.generation
            == handle.generation && handle@.definition == handle.definition@,
{
}

/// An equality index on nodes is found by its label and its property, and nothing else is.
pub proof fn law_node_equality_is_found_by_label_and_property(
    definition: DefinitionShape,
    label: Seq<char>,
    property: Seq<char>,
)
    ensures
        is_node_equality(definition, label, property) ==> definition is Secondary,
        definition matches DefinitionShape::Secondary(shape) ==> (is_node_equality(
            definition,
            label,
            property,
        ) <==> shape.element_type == IndexElementKind::Node && shape.kind
            == SecondaryIndexKind::Equality && shape.label == label && shape.property == property),
{
}

/// The text indexes among active ones are exactly those with a text definition, each as
/// often as it occurs.
pub proof fn law_text_indexes_are_picked(handles: Seq<HandleShape>, handle: HandleShape)
    ensures
        text_only(handles).contains(handle) <==> handles.contains(handle) && handle.definition
            is Text,
        text_only(handles).len() <= handles.len(),
        (forall|i: int| 0 <= i < handles.len() ==> (#[trigger] handles[i]).definition is Text)
            ==> text_only(handles) == handles,
    decreases handles.len(),
{
    if handles.len() > 0 {
        let before = handles.drop_last();
        let last = handles.last();
        law_text_indexes_are_picked(before, handle);
        let picked = text_only(handles);
        let earlier = text_only(before);
        if handles.contains(handle) {
            let at = handles.index_of(handle);
            if at < before.len() {
                assert(before[at] == handle);
            }
        }
        if before.contains(handle) {
            let at = before.index_of(handle);
            assert(handles[at] == handle);
        }
        assert(handles[handles.len() - 1] == last);
        if last.definition is Text {
            assert(picked[earlier.len() as int] == last);
            if earlier.contains(handle) {
                let at = earlier.index_of(handle);
                assert(picked[at] == handle);
            }
            if picked.contains(handle) {
                let at = picked.index_of(handle);
                if at < earlier.len() {
                    assert(earlier[at] == handle);
                }
            }
        }
        if forall|i: int| 0 <= i < handles.len() ==> (#[trigger] handles[i]).definition is Text {
            assert forall|i: int| 0 <= i < before.len() implies (#[trigger] before[i]).definition
                is Text by {
                assert(before[i] == handles[i]);
            }
            assert(before.push(last) =~= handles);
        }
    } else {
        assert(handles =~= Seq::empty());
    }
}

/// Every text index of every listed scope is found, and nothing else.
pub proof fn law_every_text_index_is_found(
    state: Map<DataScope, LoadedShape>,
    scopes: Seq<DataScope>,
    handle: HandleShape,
)
    ensures
        texts_of(state, scopes).contains(handle) <==> exists|i: int|
            0 <= i < scopes.len() && state.contains_key(#[trigger] scopes[i])
                && state[scopes[i]].handles.contains(handle) && handle.definition is Text,
    decreases scopes.len(),
{
    if scopes.len() > 0 {
        let before = scopes.drop_last();
        let scope = scopes.last();
        law_every_text_index_is_found(state, before, handle);
        let own = if state.contains_key(scope) {
            state[scope].handles
        } else {
            Seq::empty()
        };
        law_text_indexes_are_picked(own, handle);
        let earlier = texts_of(state, before);
        let all = texts_of(state, scopes);
        if all.contains(handle) {
            let at = all.index_of(handle);
            if at < earlier.len() {
                assert(earlier[at] == handle);
                let i = choose|i: int|
                    0 <= i < before.len() && state.contains_key(#[trigger] before[i])
                        && state[before[i]].handles.contains(handle) && handle.definition is Text;
                assert(scopes[i] == before[i]);
            } else {
                assert(text_only(own)[at - earlier.len()] == handle);
                assert(scopes[scopes.len() - 1] == scope);
            }
        }
        if exists|i: int|
            0 <= i < scopes.len() && state.contains_key(#[trigger] scopes[i])
                && state[scopes[i]].handles.contains(handle) && handle.definition is Text {
            let i = choose|i: int|
                0 <= i < scopes.len() && state.contains_key(#[trigger] scopes[i])
                    && state[scopes[i]].handles.contains(handle) && handle.definition is Text;
            if i < before.len() {
                assert(before[i] == scopes[i]);
                let at = earlier.index_of(handle);
                assert(all[at] == handle);
            } else {
                let at = text_only(own).index_of(handle);
                assert(all[earlier.len() + at] == handle);
            }
        }
    }
}

/// A limit keeps the first handles, as many as it allows, and no limit keeps all.
pub proof fn law_limits_keep_the_first(handles: Seq<ActiveIndexHandle>, limit: usize)
    ensures
        cut(handles, None) == handles,
        cut(handles, Some(limit)).len() == if limit < handles.len() {
            limit as nat
        } else {
            handles.len()
        },
        forall|i: int|
            0 <= i < cut(handles, Some(limit)).len() ==> (#[trigger] cut(handles, Some(limit))[i])
                == handles[i],
{
}

/// Loaded scopes are listed without omission and without repetition.
pub proof fn law_loaded_scopes_are_listed_once(
    state: Map<DataScope, LoadedShape>,
    scopes: Seq<DataScope>,
    scope: DataScope,
)
    requires
        lists_loaded(state, scopes),
    ensures
        scopes.contains(scope) <==> state.contains_key(scope),
        scopes.no_duplicates(),
{
    assert forall|i: int, j: int| 0 <= i < j < scopes.len() implies scopes[i] != scopes[j] by {
        assert(scopes[i].rank() < scopes[j].rank());
    }
}

/// Handles in order come one before the other, or are of one generation of one index.
pub proof fn law_ordered_handles_come_one_by_one(
    handles: Seq<ActiveIndexHandle>,
    left: int,
    right: int,
)
    requires
        in_order(handles),
        0 <= left < right < handles.len(),
    ensures
        handles[left].before(handles[right]) || (handles[left].scope == handles[right].scope
            && handles[left].index_id == handles[right].index_id && handles[left].generation
            == handles[right].generation),
{
    law_handles_are_ordered(handles[left], handles[right]);
}

/// Putting handles in order keeps every one of them and adds none.
pub proof fn law_ordering_keeps_handles(
    handles: Seq<ActiveIndexHandle>,
    given: Seq<HandleShape>,
    handle: HandleShape,
)
    requires
        is_ordered_form(handles, given),
    ensures
        in_order(handles),
        handles.len() == given.len(),
        given.contains(handle) <==> exists|i: int|
            0 <= i < handles.len() && (#[trigger] handles[i])@ == handle,
{
    broadcast use vstd::seq_lib::group_to_multiset_ensures;

    let views = handle_views(handles);
    assert(views.len() == handles.len());
    assert(views.to_multiset().len() == views.len());
    assert(given.to_multiset().len() == given.len());
    assert(given.contains(handle) <==> given.to_multiset().count(handle) > 0);
    assert(views.contains(handle) <==> views.to_multiset().count(handle) > 0);
    if views.contains(handle) {
        let at = views.index_of(handle);
        assert(views[at] == handles[at]@);
    }
    if exists|i: int| 0 <= i < handles.len() && (#[trigger] handles[i])@ == handle {
        let i = choose|i: int| 0 <= i < handles.len() && (#[trigger] handles[i])@ == handle;
        assert(views[i] == handle);
    }
}

} // verus!
