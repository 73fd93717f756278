//! An append-only registry that gives ADTs and traits their identifiers.

use vstd::prelude::*;

use crate::primitives::{AdtData, GenericArgType, TraitData};

verus! {

/// Identifier of a registered item: its position in the registry, plus one.
#[derive(Clone, Copy, Debug, PartialEq, Eq, Structural)]
pub struct ItemId(u32);

impl ItemId {
    #[verifier::type_invariant]
    spec fn non_zero(self) -> bool {
        self.0 != 0
    }

    pub closed spec fn value(self) -> u32 {
        self.0
    }

    /// An identifier with the given value; `None` for zero.
    pub fn new(value: u32) -> (r: Option<Self>)
        ensures
            r is Some <==> value != 0,
            r matches Some(id) ==> id.value() == value,
    {
        if value == 0 {
            None
        } else {
            Some(ItemId(value))
        }
    }

    pub fn get(&self) -> (r: u32)
        ensures
            r == self.value(),
            r != 0,
    {
        proof {
            use_type_invariant(self);
        }
        self.0
    }
}

/// Identifier of a registered ADT.
#[derive(Clone, Copy, Debug, PartialEq, Eq, Structural)]
pub struct AdtId(pub ItemId);

impl AdtId {
    pub fn new(id: ItemId) -> (r: Self)
        ensures
            r.0 == id,
    {
        AdtId(id)
    }
}

/// Identifier of a registered trait.
#[derive(Clone, Copy, Debug, PartialEq, Eq, Structural)]
pub struct TraitId(pub ItemId);

impl TraitId {
    pub fn new(id: ItemId) -> (r: Self)
        ensures
            r.0 == id,
    {
        TraitId(id)
    }
}

/// One entry of the registry.
#[derive(Debug)]
pub enum InternerItem {
    Adt(AdtData),
    Trait(TraitData),
}

/// Position in the registry of the item with the given id.
pub open spec fn item_index(id: ItemId) -> int {
    id.value() - 1
}

/// The generic parameters of the ADT `id`, if `reg` holds an ADT under that id.
pub open spec fn adt_kinds(reg: Seq<InternerItem>, id: AdtId) -> Option<Seq<GenericArgType>> {
    let i = item_index(id.0);
    if 0 <= i < reg.len() {
        match reg[i] {
            InternerItem::Adt(data) => Some(data.generic_args@),
            InternerItem::Trait(_) => None,
        }
    } else {
        None
    }
}

/// The name of the ADT `id` in `reg` (empty if there is none).
pub open spec fn adt_name(reg: Seq<InternerItem>, id: AdtId) -> Seq<char> {
    let i = item_index(id.0);
    if 0 <= i < reg.len() {
        match reg[i] {
            InternerItem::Adt(data) => data.name@,
            InternerItem::Trait(_) => seq![],
        }
    } else {
        seq![]
    }
}

/// The generic parameters of the trait `id`, if `reg` holds a trait under that id.
pub open spec fn trait_kinds(reg: Seq<InternerItem>, id: TraitId) -> Option<Seq<GenericArgType>> {
    let i = item_index(id.0);
    if 0 <= i < reg.len() {
        match reg[i] {
            InternerItem::Trait(data) => Some(data.generic_args@),
            InternerItem::Adt(_) => None,
        }
    } else {
        None
    }
}

/// The name of the trait `id` in `reg` (empty if there is none).
pub open spec fn trait_name(reg: Seq<InternerItem>, id: TraitId) -> Seq<char> {
    let i = item_index(id.0);
    if 0 <= i < reg.len() {
        match reg[i] {
            InternerItem::Trait(data) => data.name@,
            InternerItem::Adt(_) => seq![],
        }
    } else {
        seq![]
    }
}

/// A registry kept in a vector; an item's id is its position plus one.
#[derive(Debug)]
pub struct NaiveInterner {
    items: Vec<InternerItem>,
}

impl View for NaiveInterner {
    type V = Seq<InternerItem>;

    closed spec fn view(&self) -> Seq<InternerItem> {
        self.items@
    }
}

impl NaiveInterner {
    pub fn new() -> (r: Self)
        ensures
            r@ == Seq::<InternerItem>::empty(),
    {
        NaiveInterner { items: Vec::new() }
    }

    fn into_items_index(id: ItemId) -> (r: usize)
        ensures
            r == item_index(id),
    {
        (id.get() - 1) as usize
    }

    fn new_item_id(index: usize) -> (r: ItemId)
        requires
            index < u32::MAX,
        ensures
            item_index(r) == index,
    {
        ItemId((index + 1) as u32)
    }

    /// The data of the ADT `id`.
    pub fn get_adt(&self, id: AdtId) -> (r: &AdtData)
        requires
            adt_kinds(self@, id) is Some,
        ensures
            Some(r.generic_args@) == adt_kinds(self@, id),
            r.name@ == adt_name(self@, id),
    {
        let i = Self::into_items_index(id.0);
        match &self.items[i] {
            InternerItem::Adt(data) => data,
            InternerItem::Trait(_) => unreached(),
        }
    }

    /// The data of the ADT `id`, or `None` where this registry holds no ADT
    /// under that id.
    pub fn get_adt_by_id(&self, id: AdtId) -> (r: Option<&AdtData>)
        ensures
            r is Some <==> adt_kinds(self@, id) is Some,
            r matches Some(data) ==> Some(data.generic_args@) == adt_kinds(self@, id)
                && data.name@ == adt_name(self@, id),
    {
        let i = Self::into_items_index(id.0);
        if i < self.items.len() {
            match &self.items[i] {
                InternerItem::Adt(data) => Some(data),
                InternerItem::Trait(_) => None,
            }
        } else {
            None
        }
    }

    /// Registers an ADT and returns its id.
    pub fn new_adt(&mut self, name: String, generic_args: Vec<GenericArgType>) -> (r: AdtId)
        requires
            old(self)@.len() < u32::MAX,
        ensures
            final(self)@ == old(self)@.push(InternerItem::Adt(AdtData { name, generic_args })),
            item_index(r.0) == old(self)@.len(),
            adt_kinds(final(self)@, r) == Some(generic_args@),
            adt_name(final(self)@, r) == name@,
    {
        let id = AdtId::new(Self::new_item_id(self.items.len()));
        self.items.push(InternerItem::Adt(AdtData { name, generic_args }));
        id
    }

    /// The data of the trait `id`.
    pub fn get_trait(&self, id: TraitId) -> (r: &TraitData)
        requires
            trait_kinds(self@, id) is Some,
        ensures
            Some(r.generic_args@) == trait_kinds(self@, id),
            r.name@ == trait_name(self@, id),
    {
        let i = Self::into_items_index(id.0);
        match &self.items[i] {
            InternerItem::Trait(data) => data,
            InternerItem::Adt(_) => unreached(),
        }
    }

    /// The data of the trait `id`, or `None` where this registry holds no
    /// trait under that id.
    pub fn get_trait_by_id(&self, id: TraitId) -> (r: Option<&TraitData>)
        ensures
            r is Some <==> trait_kinds(self@, id) is Some,
            r matches Some(data) ==> Some(data.generic_args@) == trait_kinds(self@, id)
                && data.name@ == trait_name(self@, id),
    {
        let i = Self::into_items_index(id.0);
        if i < self.items.len() {
            match &self.items[i] {
                InternerItem::Trait(data) => Some(data),
                InternerItem::Adt(_) => None,
            }
        } else {
            None
        }
    }

    /// Registers a trait and returns its id.
    pub fn new_trait(&mut self, name: String, generic_args: Vec<GenericArgType>) -> (r: TraitId)
        requires
            old(self)@.len() < u32::MAX,
        ensures
            final(self)@ == old(self)@.push(InternerItem::Trait(TraitData { name, generic_args })),
            item_index(r.0) == old(self)@.len(),
            trait_kinds(final(self)@, r) == Some(generic_args@),
            trait_name(final(self)@, r) == name@,
    {
        let id = TraitId::new(Self::new_item_id(self.items.len()));
        self.items.push(InternerItem::Trait(TraitData { name, generic_args }));
        id
    }
}

} // verus!
