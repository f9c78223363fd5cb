//! The relationship registry: which scrollbar belongs to which region, and which thumb
//! to which scrollbar.
//!
//! A scrollbar controls exactly one region and a region has exactly one scrollbar; no
//! entity takes part in two pairs, or in one pair twice. Destroying either side of a
//! pair dissolves the pair, and the registry hands back what else is to be destroyed.

use vstd::prelude::*;

verus! {

/// The identity of an entity of the host.
#[derive(Clone, Copy, Debug, PartialEq, Eq, Structural)]
pub struct EntityId(pub u64);

/// What makes an entity a scrollbar: the region that it controls.
#[derive(Clone, Copy, Debug, PartialEq, Eq, Structural)]
pub struct Scrollbar {
    /// The region that this scrollbar controls.
    pub scrollable: EntityId,
}

/// What marks a region as controlled by a scrollbar. Only binding a scrollbar makes
/// one.
#[derive(Clone, Copy, Debug, PartialEq, Eq, Structural)]
pub struct Scrollable {
    scrollbar: EntityId,
}

/// One pair: a scrollbar, the region it controls, and the scrollbar's thumb once it
/// is spawned.
#[derive(Clone, Copy, Debug, PartialEq, Eq, Structural)]
pub struct Link {
    pub scrollbar: EntityId,
    pub scrollable: EntityId,
    pub thumb: Option<EntityId>,
}

/// The part that an entity plays in a pair.
#[derive(Clone, Copy, Debug, PartialEq, Eq, Structural)]
pub enum Role {
    Scrollbar,
    Scrollable,
    Thumb,
}

/// Why a binding was refused.
#[derive(Clone, Copy, Debug, PartialEq, Eq, Structural)]
pub enum BindError {
    /// A scrollbar cannot control itself.
    SelfBinding,
    /// One of the entities takes part in another pair already.
    AlreadyBound,
    /// The entity is no scrollbar of the registry.
    NotBound,
}

impl Scrollable {
    /// The scrollbar of this region.
    pub closed spec fn spec_scrollbar(self) -> EntityId {
        self.scrollbar
    }

    /// The scrollbar of this region.
    pub fn scrollbar(&self) -> (r: EntityId)
        ensures
            r == self.spec_scrollbar(),
    {
        self.scrollbar
    }
}

impl Link {
    /// The part that `entity` plays in this pair, if any.
    pub open spec fn spec_role_of(self, entity: EntityId) -> Option<Role> {
        if self.scrollbar == entity {
            Some(Role::Scrollbar)
        } else if self.scrollable == entity {
            Some(Role::Scrollable)
        } else if self.thumb == Some(entity) {
            Some(Role::Thumb)
        } else {
            None
        }
    }

    /// Whether `entity` takes part in this pair.
    pub open spec fn involves(self, entity: EntityId) -> bool {
        self.scrollbar == entity || self.scrollable == entity || self.thumb == Some(entity)
    }

    /// Whether `entity` is one of the two sides of this pair.
    pub open spec fn has_side(self, entity: EntityId) -> bool {
        self.scrollbar == entity || self.scrollable == entity
    }

    /// The three parts of a pair are three entities.
    pub open spec fn wf(self) -> bool {
        &&& self.scrollbar != self.scrollable
        &&& self.thumb != Some(self.scrollbar)
        &&& self.thumb != Some(self.scrollable)
    }

    /// No entity takes part in both pairs.
    pub open spec fn disjoint(self, other: Link) -> bool {
        &&& !other.involves(self.scrollbar)
        &&& !other.involves(self.scrollable)
        &&& self.thumb matches Some(t) ==> !other.involves(t)
    }

    /// The part that `entity` plays in this pair, if any.
    pub fn role_of(&self, entity: EntityId) -> (r: Option<Role>)
        ensures
            r == self.spec_role_of(entity),
            r is Some <==> self.involves(entity),
    {
        if self.scrollbar == entity {
            Some(Role::Scrollbar)
        } else if self.scrollable == entity {
            Some(Role::Scrollable)
        } else {
            match self.thumb {
                Some(t) => if t == entity {
                    Some(Role::Thumb)
                } else {
                    None
                },
                None => None,
            }
        }
    }
}

/// The pairs are one to one: each is made of three entities, and no entity takes part
/// in two of them.
pub open spec fn links_wf(links: Seq<Link>) -> bool {
    &&& forall|i: int| 0 <= i < links.len() ==> (#[trigger] links[i]).wf()
    &&& forall|i: int, j: int|
        0 <= i < j < links.len() ==> (#[trigger] links[i]).disjoint(#[trigger] links[j])
}

/// Whether `entity` takes part in one of the pairs.
pub open spec fn participates(links: Seq<Link>, entity: EntityId) -> bool {
    exists|i: int| 0 <= i < links.len() && (#[trigger] links[i]).involves(entity)
}

/// Whether `scrollbar` and `scrollable` are the two sides of one of the pairs.
pub open spec fn paired(links: Seq<Link>, scrollbar: EntityId, scrollable: EntityId) -> bool {
    exists|i: int|
        0 <= i < links.len() && (#[trigger] links[i]).scrollbar == scrollbar
            && links[i].scrollable == scrollable
}

/// What binding `scrollbar` to `scrollable` does to the pairs. Binding a pair that is
/// bound changes nothing. A scrollbar cannot be bound to itself, nor an entity that
/// takes part in any other pair. Else the new pair is added, without a thumb.
pub open spec fn spec_bind(links: Seq<Link>, scrollbar: EntityId, scrollable: EntityId) -> Result<
    Seq<Link>,
    BindError,
> {
    if scrollbar == scrollable {
        Err(BindError::SelfBinding)
    } else if paired(links, scrollbar, scrollable) {
        Ok(links)
    } else if participates(links, scrollbar) || participates(links, scrollable) {
        Err(BindError::AlreadyBound)
    } else {
        Ok(links.push(Link { scrollbar, scrollable, thumb: None }))
    }
}

/// The registry of scrollbar pairs.
pub struct Registry {
    links: Vec<Link>,
}

impl View for Registry {
    type V = Seq<Link>;

    closed spec fn view(&self) -> Seq<Link> {
        self.links@
    }
}

impl Registry {
    #[verifier::type_invariant]
    spec fn inv(self) -> bool {
        links_wf(self.links@)
    }

    /// The registry without any pair.
    pub fn new() -> (r: Registry)
        ensures
            r@ == Seq::<Link>::empty(),
    {
        Registry { links: Vec::new() }
    }

    /// The number of pairs.
    pub fn len(&self) -> (n: usize)
        ensures
            n == self@.len(),
            links_wf(self@),
    {
        proof {
            use_type_invariant(self);
        }
        self.links.len()
    }

    /// The place of the pair in which `entity` takes part.
    fn position(&self, entity: EntityId) -> (r: Option<usize>)
        ensures
            links_wf(self@),
            match r {
                Some(i) => i < self@.len() && self@[i as int].involves(entity),
                None => !participates(self@, entity),
            },
    {
        proof {
            use_type_invariant(self);
        }
        let mut i: usize = 0;
        while i < self.links.len()
            invariant
                i <= self.links@.len(),
                links_wf(self.links@),
                forall|j: int| 0 <= j < i ==> !(#[trigger] self.links@[j]).involves(entity),
            decreases self.links@.len() - i,
        {
            if self.links[i].role_of(entity).is_some() {
                return Some(i);
            }
            i = i + 1;
        }
        None
    }

    /// The pair in which `entity` takes part, and the part it plays there.
    pub fn find(&self, entity: EntityId) -> (r: Option<(Link, Role)>)
        ensures
            links_wf(self@),
            match r {
                Some((link, role)) => self@.contains(link) && link.spec_role_of(entity) == Some(
                    role,
                ),
                None => !participates(self@, entity),
            },
    {
        match self.position(entity) {
            Some(i) => {
                let link = self.links[i];
                match link.role_of(entity) {
                    Some(role) => Some((link, role)),
                    None => None,
                }
            },
            None => None,
        }
    }

    /// The region that `scrollbar` controls.
    pub fn scrollable_of(&self, scrollbar: EntityId) -> (r: Option<EntityId>)
        ensures
            links_wf(self@),
            match r {
                Some(scrollable) => paired(self@, scrollbar, scrollable),
                None => forall|i: int|
                    0 <= i < self@.len() ==> (#[trigger] self@[i]).scrollbar != scrollbar,
            },
    {
        match self.position(scrollbar) {
            Some(i) => {
                let link = self.links[i];
                if link.scrollbar == scrollbar {
                    Some(link.scrollable)
                } else {
                    proof {
                        lemma_entity_has_one_place(self@, i as int, scrollbar);
                    }
                    None
                }
            },
            None => None,
        }
    }

    /// The scrollbar that controls `scrollable`.
    pub fn scrollbar_of(&self, scrollable: EntityId) -> (r: Option<EntityId>)
        ensures
            links_wf(self@),
            match r {
                Some(scrollbar) => paired(self@, scrollbar, scrollable),
                None => forall|i: int|
                    0 <= i < self@.len() ==> (#[trigger] self@[i]).scrollable != scrollable,
            },
    {
        match self.position(scrollable) {
            Some(i) => {
                let link = self.links[i];
                if link.scrollable == scrollable {
                    Some(link.scrollbar)
                } else {
                    proof {
                        lemma_entity_has_one_place(self@, i as int, scrollable);
                    }
                    None
                }
            },
            None => None,
        }
    }

    /// The thumb of `scrollbar`.
    pub fn thumb_of(&self, scrollbar: EntityId) -> (r: Option<EntityId>)
        ensures
            links_wf(self@),
            match r {
                Some(thumb) => exists|i: int|
                    0 <= i < self@.len() && (#[trigger] self@[i]).scrollbar == scrollbar
                        && self@[i].thumb == Some(thumb),
                None => forall|i: int|
                    0 <= i < self@.len() && (#[trigger] self@[i]).scrollbar == scrollbar
                        ==> self@[i].thumb is None,
            },
    {
        match self.position(scrollbar) {
            Some(i) => {
                let link = self.links[i];
                proof {
                    lemma_entity_has_one_place(self@, i as int, scrollbar);
                }
                if link.scrollbar == scrollbar {
                    link.thumb
                } else {
                    None
                }
            },
            None => None,
        }
    }

    /// The scrollbar of which `thumb` is the thumb.
    pub fn track_of(&self, thumb: EntityId) -> (r: Option<EntityId>)
        ensures
            links_wf(self@),
            match r {
                Some(scrollbar) => exists|i: int|
                    0 <= i < self@.len() && (#[trigger] self@[i]).scrollbar == scrollbar
                        && self@[i].thumb == Some(thumb),
                None => forall|i: int|
                    0 <= i < self@.len() ==> (#[trigger] self@[i]).thumb != Some(thumb),
            },
    {
        match self.position(thumb) {
            Some(i) => {
                let link = self.links[i];
                proof {
                    lemma_entity_has_one_place(self@, i as int, thumb);
                }
                match link.role_of(thumb) {
                    Some(Role::Thumb) => Some(link.scrollbar),
                    _ => None,
                }
            },
            None => None,
        }
    }

    /// Binds the entity `entity`, which has become a scrollbar, to the region that
    /// `scrollbar` names, and hands back the mark that the region is to carry.
    pub fn bind(&mut self, entity: EntityId, scrollbar: Scrollbar) -> (r: Result<
        Scrollable,
        BindError,
    >)
        ensures
            links_wf(final(self)@),
            match (r, spec_bind(old(self)@, entity, scrollbar.scrollable)) {
                (Ok(mark), Ok(links)) => final(self)@ == links && mark.spec_scrollbar() == entity,
                (Err(e), Err(f)) => e == f && final(self)@ == old(self)@,
                _ => false,
            },
    {
        let scrollable = scrollbar.scrollable;
        if entity == scrollable {
            proof {
                use_type_invariant(&*self);
            }
            return Err(BindError::SelfBinding);
        }
        match self.position(entity) {
            Some(i) => {
                let link = self.links[i];
                proof {
                    lemma_entity_has_one_place(self@, i as int, entity);
                }
                if link.scrollbar == entity && link.scrollable == scrollable {
                    Ok(Scrollable { scrollbar: entity })
                } else {
                    Err(BindError::AlreadyBound)
                }
            },
            None => match self.position(scrollable) {
                Some(_) => Err(BindError::AlreadyBound),
                None => {
                    let ghost before = self@;
                    let link = Link { scrollbar: entity, scrollable, thumb: None };
                    let mut links: Vec<Link> = Vec::new();
                    std::mem::swap(&mut links, &mut self.links);
                    links.push(link);
                    proof {
                        lemma_bind_keeps_one_to_one(before, entity, scrollable);
                    }
                    self.links = links;
                    Ok(Scrollable { scrollbar: entity })
                },
            },
        }
    }

    /// Records `thumb` as the thumb of `scrollbar`. Recording the thumb that the
    /// scrollbar has changes nothing. It fails with `NotBound` if `scrollbar` is no
    /// scrollbar of the registry, and with `AlreadyBound` if the scrollbar has another
    /// thumb or `thumb` takes part in any pair in another way.
    pub fn attach_thumb(&mut self, scrollbar: EntityId, thumb: EntityId) -> (r: Result<
        (),
        BindError,
    >)
        ensures
            links_wf(final(self)@),
            match r {
                Ok(()) => exists|i: int|
                    0 <= i < old(self)@.len() && (#[trigger] old(self)@[i]).scrollbar == scrollbar
                        && (old(self)@[i].thumb is None ==> !participates(old(self)@, thumb))
                        && (old(self)@[i].thumb is Some ==> old(self)@[i].thumb == Some(thumb))
                        && final(self)@ == old(self)@.update(
                        i,
                        Link { thumb: Some(thumb), ..old(self)@[i] },
                    ),
                Err(BindError::NotBound) => final(self)@ == old(self)@ && forall|i: int|
                    0 <= i < old(self)@.len() ==> (#[trigger] old(self)@[i]).scrollbar
                        != scrollbar,
                Err(BindError::AlreadyBound) => final(self)@ == old(self)@ && exists|i: int|
                    0 <= i < old(self)@.len() && (#[trigger] old(self)@[i]).scrollbar == scrollbar
                        && old(self)@[i].thumb != Some(thumb) && (old(self)@[i].thumb is Some
                        || participates(old(self)@, thumb)),
                Err(BindError::SelfBinding) => false,
            },
    {
        match self.position(scrollbar) {
            None => Err(BindError::NotBound),
            Some(i) => {
                let link = self.links[i];
                proof {
                    lemma_entity_has_one_place(self@, i as int, scrollbar);
                }
                if !(link.scrollbar == scrollbar) {
                    return Err(BindError::NotBound);
                }
                match link.thumb {
                    Some(t) => if t == thumb {
                        assert(self@ =~= self@.update(
                            i as int,
                            Link { thumb: Some(thumb), ..link },
                        ));
                        Ok(())
                    } else {
                        Err(BindError::AlreadyBound)
                    },
                    None => match self.position(thumb) {
                        Some(_) => Err(BindError::AlreadyBound),
                        None => {
                            let ghost before = self@;
                            let updated = Link { thumb: Some(thumb), ..link };
                            let mut links: Vec<Link> = Vec::new();
                            std::mem::swap(&mut links, &mut self.links);
                            links.set(i, updated);
                            proof {
                                lemma_update_keeps_one_to_one(before, i as int, thumb);
                            }
                            self.links = links;
                            Ok(())
                        },
                    },
                }
            },
        }
    }

    /// Dissolves the pair of which `entity` is a side, because `entity` is being
    /// destroyed, and hands the pair back: its other side and its thumb are to be
    /// destroyed with it. An entity that is a side of no pair changes nothing.
    pub fn remove(&mut self, entity: EntityId) -> (r: Option<Link>)
        ensures
            links_wf(final(self)@),
            match r {
                Some(link) => link.has_side(entity) && exists|i: int|
                    0 <= i < old(self)@.len() && #[trigger] old(self)@[i] == link && final(self)@
                        == old(self)@.remove(i),
                None => final(self)@ == old(self)@ && forall|i: int|
                    0 <= i < old(self)@.len() ==> !(#[trigger] old(self)@[i]).has_side(entity),
            },
    {
        match self.position(entity) {
            None => None,
            Some(i) => {
                let link = self.links[i];
                proof {
                    lemma_entity_has_one_place(self@, i as int, entity);
                }
                if link.scrollbar == entity || link.scrollable == entity {
                    let ghost before = self@;
                    let mut links: Vec<Link> = Vec::new();
                    std::mem::swap(&mut links, &mut self.links);
                    let removed = links.remove(i);
                    proof {
                        lemma_remove_dissolves_pair(before, i as int);
                    }
                    self.links = links;
                    Some(removed)
                } else {
                    None
                }
            },
        }
    }
}

/// An entity that takes part in one pair takes part in no other.
pub proof fn lemma_entity_has_one_place(links: Seq<Link>, i: int, entity: EntityId)
    requires
        links_wf(links),
        0 <= i < links.len(),
        links[i].involves(entity),
    ensures
        forall|j: int| 0 <= j < links.len() && j != i ==> !(#[trigger] links[j]).involves(entity),
{
    assert forall|j: int| 0 <= j < links.len() && j != i implies !(#[trigger] links[j]).involves(
        entity,
    ) by {
        if j < i {
            assert(links[j].disjoint(links[i]));
        } else {
            assert(links[i].disjoint(links[j]));
        }
    }
}

/// One scrollbar per region and one region per scrollbar: two pairs with the same
/// scrollbar, or with the same region, are one pair.
pub proof fn lemma_one_to_one(links: Seq<Link>, i: int, j: int)
    requires
        links_wf(links),
        0 <= i < links.len(),
        0 <= j < links.len(),
        links[i].scrollbar == links[j].scrollbar || links[i].scrollable == links[j].scrollable,
    ensures
        i == j,
{
    if links[i].scrollbar == links[j].scrollbar {
        lemma_entity_has_one_place(links, i, links[i].scrollbar);
    } else {
        lemma_entity_has_one_place(links, i, links[i].scrollable);
    }
}

/// A scrollbar has one region and a region has one scrollbar: what is paired with the
/// same scrollbar is the same region, and what is paired with the same region is the
/// same scrollbar.
pub proof fn lemma_pair_is_unique(
    links: Seq<Link>,
    scrollbar: EntityId,
    scrollable: EntityId,
    other_scrollbar: EntityId,
    other_scrollable: EntityId,
)
    requires
        links_wf(links),
        paired(links, scrollbar, scrollable),
        paired(links, other_scrollbar, other_scrollable),
        scrollbar == other_scrollbar || scrollable == other_scrollable,
    ensures
        scrollbar == other_scrollbar,
        scrollable == other_scrollable,
{
    let i = choose|i: int|
        0 <= i < links.len() && (#[trigger] links[i]).scrollbar == scrollbar && links[i].scrollable
            == scrollable;
    let j = choose|j: int|
        0 <= j < links.len() && (#[trigger] links[j]).scrollbar == other_scrollbar
            && links[j].scrollable == other_scrollable;
    lemma_one_to_one(links, i, j);
}

/// Giving a pair a thumb that takes part in no pair keeps the pairs one to one.
pub proof fn lemma_update_keeps_one_to_one(links: Seq<Link>, i: int, thumb: EntityId)
    requires
        links_wf(links),
        0 <= i < links.len(),
        links[i].thumb is None,
        !participates(links, thumb),
    ensures
        links_wf(links.update(i, Link { thumb: Some(thumb), ..links[i] })),
{
    let updated = links.update(i, Link { thumb: Some(thumb), ..links[i] });
    assert forall|k: int| 0 <= k < updated.len() implies (#[trigger] updated[k]).wf() by {
        assert(links[k].wf());
        assert(!links[i].involves(thumb));
    }
    assert forall|a: int, b: int| 0 <= a < b < updated.len() implies (#[trigger] updated[a]).disjoint(
        #[trigger] updated[b],
    ) by {
        assert(links[a].disjoint(links[b]));
        assert(!links[a].involves(thumb));
        assert(!links[b].involves(thumb));
    }
}

/// Dissolving a pair keeps the others one to one, and none of them involves an entity
/// of the pair that is gone: the scrollbar, the region and the thumb leave together.
pub proof fn lemma_remove_dissolves_pair(links: Seq<Link>, i: int)
    requires
        links_wf(links),
        0 <= i < links.len(),
    ensures
        links_wf(links.remove(i)),
        !participates(links.remove(i), links[i].scrollbar),
        !participates(links.remove(i), links[i].scrollable),
        links[i].thumb matches Some(t) ==> !participates(links.remove(i), t),
{
    let rest = links.remove(i);
    assert forall|k: int| 0 <= k < rest.len() implies (#[trigger] rest[k]).wf() by {
        if k < i {
            assert(rest[k] == links[k]);
        } else {
            assert(rest[k] == links[k + 1]);
        }
    }
    assert forall|a: int, b: int| 0 <= a < b < rest.len() implies (#[trigger] rest[a]).disjoint(
        #[trigger] rest[b],
    ) by {
        let a0 = if a < i { a } else { a + 1 };
        let b0 = if b < i { b } else { b + 1 };
        assert(rest[a] == links[a0]);
        assert(rest[b] == links[b0]);
        assert(links[a0].disjoint(links[b0]));
    }
    assert forall|k: int| 0 <= k < rest.len() implies (#[trigger] rest[k]).disjoint(links[i]) by {
        let k0 = if k < i { k } else { k + 1 };
        assert(rest[k] == links[k0]);
        if k0 < i {
            assert(links[k0].disjoint(links[i]));
        } else {
            assert(links[i].disjoint(links[k0]));
        }
    }
}

/// Binding keeps the pairs one to one, and a bound pair is found from either side.
pub proof fn lemma_bind_keeps_one_to_one(
    links: Seq<Link>,
    scrollbar: EntityId,
    scrollable: EntityId,
)
    requires
        links_wf(links),
    ensures
        spec_bind(links, scrollbar, scrollable) matches Ok(bound) ==> links_wf(bound) && paired(
            bound,
            scrollbar,
            scrollable,
        ),
{
    if spec_bind(links, scrollbar, scrollable) is Ok && !paired(links, scrollbar, scrollable) {
        let link = Link { scrollbar, scrollable, thumb: None };
        let bound = links.push(link);
        assert forall|k: int| 0 <= k < bound.len() implies (#[trigger] bound[k]).wf() by {
            if k < links.len() {
                assert(bound[k] == links[k]);
            }
        }
        assert forall|a: int, b: int| 0 <= a < b < bound.len() implies (#[trigger] bound[a]).disjoint(
            #[trigger] bound[b],
        ) by {
            assert(bound[a] == links[a]);
            if b < links.len() {
                assert(bound[b] == links[b]);
                assert(links[a].disjoint(links[b]));
            } else {
                assert(!links[a].involves(scrollbar));
                assert(!links[a].involves(scrollable));
            }
        }
        assert(bound[links.len() as int].scrollbar == scrollbar);
    }
}

} // verus!
