//! Read-only definitions for each variety of item, kept in a manifest
//! keyed by item id.

use vstd::prelude::*;

verus! {

/// The marker type for item identifiers.
#[derive(Clone, Copy, PartialEq, Eq, Structural, Debug)]
pub struct Item;

/// The identifier of an item: its slot in the manifest.
#[derive(Clone, Copy, PartialEq, Eq, Structural, Debug, Hash)]
pub struct ItemId(pub usize);

/// A tag that classifies items.
#[derive(Clone, Copy, PartialEq, Eq, Structural, Debug, Hash)]
pub enum ItemTag {
    /// The item is a fluid.
    Fluid,
    /// The item is classified by its free-form category text; items are
    /// not yet queryable by it.
    Category,
}

impl ItemTag {
    /// The human-readable name of the tag.
    pub fn name(&self) -> (r: &'static str)
        ensures
            *self is Fluid ==> r@ == "Fluid"@,
            *self is Category ==> r@ == "Category"@,
    {
        match *self {
            ItemTag::Fluid => "Fluid",
            ItemTag::Category => "Category",
        }
    }
}

/// A kind of item: either one single item, or every item with a tag.
#[derive(Clone, Copy, PartialEq, Eq, Structural, Debug, Hash)]
pub enum ItemKind {
    /// One item.
    Single(ItemId),
    /// All items carrying a tag.
    Tag(ItemTag),
}

/// The data associated with each item.
#[derive(Debug, PartialEq, Eq)]
pub struct ItemData {
    /// The volume of one unit of the item.
    pub volume_per_unit: u32,
    /// Is this item a fluid?
    pub fluid: bool,
    /// The category of the item.
    pub category: String,
}

impl Clone for ItemData {
    fn clone(&self) -> (r: Self)
        ensures
            r == *self,
    {
        ItemData {
            volume_per_unit: self.volume_per_unit,
            fluid: self.fluid,
            category: self.category.clone(),
        }
    }
}

/// The unprocessed `ItemData` as read from a manifest file.
#[derive(Debug, PartialEq, Eq)]
pub struct RawItemData {
    /// The volume of one unit of the item.
    pub volume_per_unit: u32,
    /// Is this item a fluid?
    pub fluid: bool,
    /// The category of the item.
    pub category: String,
}

impl Clone for RawItemData {
    fn clone(&self) -> (r: Self)
        ensures
            r == *self,
    {
        RawItemData {
            volume_per_unit: self.volume_per_unit,
            fluid: self.fluid,
            category: self.category.clone(),
        }
    }
}

impl From<RawItemData> for ItemData {
    fn from(raw: RawItemData) -> (r: Self) {
        ItemData { volume_per_unit: raw.volume_per_unit, fluid: raw.fluid, category: raw.category }
    }
}

impl vstd::std_specs::convert::FromSpecImpl<RawItemData> for ItemData {
    open spec fn obeys_from_spec() -> bool {
        true
    }

    open spec fn from_spec(raw: RawItemData) -> ItemData {
        ItemData { volume_per_unit: raw.volume_per_unit, fluid: raw.fluid, category: raw.category }
    }
}

/// The raw item manifest as read from a manifest file: named raw records,
/// in file order.
#[derive(Debug, PartialEq, Eq)]
pub struct RawItemManifest {
    /// The data for each item, under its name.
    pub items: Vec<(String, RawItemData)>,
}

impl RawItemManifest {
    /// Process the raw manifest into the read-only item manifest: every
    /// raw record becomes an item under its name, in order.
    pub fn process(&self) -> (manifest: ItemManifest)
        ensures
            manifest.wf(),
            manifest.spec_names().len() == self.items@.len(),
            forall|i: int|
                0 <= i < self.items@.len() ==> manifest.spec_names()[i] == (
                #[trigger] self.items@[i]).0 && manifest.spec_data()[i]
                    == <ItemData as vstd::std_specs::convert::FromSpec<RawItemData>>::from_spec(self.items@[i].1),
    {
        let mut manifest = ItemManifest::new();
        let mut i: usize = 0;
        while i < self.items.len()
            invariant
                i <= self.items@.len(),
                manifest.wf(),
                manifest.spec_names().len() == i,
                manifest.spec_data().len() == i,
                forall|k: int|
                    0 <= k < i ==> manifest.spec_names()[k] == (#[trigger] self.items@[k]).0
                        && manifest.spec_data()[k]
                        == <ItemData as vstd::std_specs::convert::FromSpec<RawItemData>>::from_spec(self.items@[k].1),
            decreases self.items@.len() - i,
        {
            let name = self.items[i].0.clone();
            let raw = self.items[i].1.clone();
            let data = ItemData::from(raw);
            manifest.insert(name, data);
            i = i + 1;
        }
        manifest
    }
}

/// Stores the read-only definitions for all items: one name and one
/// record per item, in insertion order.
#[derive(Debug, PartialEq, Eq)]
pub struct ItemManifest {
    /// The name of each item, by slot.
    names: Vec<String>,
    /// The data of each item, by slot.
    data: Vec<ItemData>,
}

impl ItemManifest {
    /// The names held, by slot.
    pub closed spec fn spec_names(self) -> Seq<String> {
        self.names@
    }

    /// The records held, by slot.
    pub closed spec fn spec_data(self) -> Seq<ItemData> {
        self.data@
    }

    /// One name per record.
    pub open spec fn wf(self) -> bool {
        self.spec_names().len() == self.spec_data().len()
    }

    /// The manifest knows this id.
    pub open spec fn spec_contains(self, item_id: ItemId) -> bool {
        item_id.0 < self.spec_data().len()
    }

    /// The kinds of all fluid items among the first `n` slots, in slot
    /// order.
    pub open spec fn fluid_kinds_up_to(self, n: int) -> Seq<ItemKind>
        decreases n,
    {
        if n <= 0 {
            Seq::<ItemKind>::empty()
        } else {
            let rest = self.fluid_kinds_up_to(n - 1);
            if self.spec_data()[n - 1].fluid {
                rest.push(ItemKind::Single(ItemId((n - 1) as usize)))
            } else {
                rest
            }
        }
    }

    /// Creates an empty manifest.
    pub fn new() -> (r: Self)
        ensures
            r.wf(),
            r.spec_names() == Seq::<String>::empty(),
            r.spec_data() == Seq::<ItemData>::empty(),
    {
        ItemManifest { names: Vec::new(), data: Vec::new() }
    }

    /// Inserts an item under a name and returns its id.
    pub fn insert(&mut self, name: String, data: ItemData) -> (r: ItemId)
        requires
            old(self).wf(),
        ensures
            final(self).wf(),
            r.0 == old(self).spec_data().len(),
            final(self).spec_names() == old(self).spec_names().push(name),
            final(self).spec_data() == old(self).spec_data().push(data),
    {
        let r = ItemId(self.data.len());
        self.names.push(name);
        self.data.push(data);
        r
    }

    /// The data of an item.
    pub fn get(&self, item_id: ItemId) -> (r: &ItemData)
        requires
            self.spec_contains(item_id),
        ensures
            *r == self.spec_data()[item_id.0 as int],
    {
        &self.data[item_id.0]
    }

    /// The name of an item.
    pub fn name(&self, item_id: ItemId) -> (r: &String)
        requires
            self.wf(),
            self.spec_contains(item_id),
        ensures
            *r == self.spec_names()[item_id.0 as int],
    {
        &self.names[item_id.0]
    }

    /// Every item id the manifest knows, in slot order.
    pub fn variants(&self) -> (r: Vec<ItemId>)
        ensures
            r@.len() == self.spec_data().len(),
            forall|i: int| 0 <= i < r@.len() ==> (#[trigger] r@[i]).0 == i,
    {
        let mut out: Vec<ItemId> = Vec::new();
        let mut i: usize = 0;
        while i < self.data.len()
            invariant
                i <= self.data.len(),
                out@.len() == i,
                forall|k: int| 0 <= k < i ==> (#[trigger] out@[k]).0 == k,
            decreases self.data.len() - i,
        {
            out.push(ItemId(i));
            i = i + 1;
        }
        out
    }

    /// Does the provided `item_id` meet the requirements of the given
    /// `tag`? Only the fluid tag can be queried; items cannot yet be
    /// queried by category.
    pub fn has_tag(&self, item_id: ItemId, tag: ItemTag) -> (r: bool)
        requires
            self.spec_contains(item_id),
            tag is Fluid,
        ensures
            r == self.spec_data()[item_id.0 as int].fluid,
    {
        let data = self.get(item_id);
        match tag {
            ItemTag::Fluid => data.fluid,
            ItemTag::Category => false,
        }
    }

    /// Returns the complete list of tags that the given item belongs to;
    /// no tags are recorded yet, so the list is empty.
    pub fn tags(&self, item_id: ItemId) -> (r: Vec<ItemTag>)
        requires
            self.spec_contains(item_id),
        ensures
            r@ == Seq::<ItemTag>::empty(),
    {
        let tags: Vec<ItemTag> = Vec::new();
        tags
    }

    /// Returns the complete list of `ItemKind` that this item belongs to:
    /// the item itself, followed by one kind per tag it carries.
    pub fn kinds(&self, item_id: ItemId) -> (r: Vec<ItemKind>)
        requires
            self.spec_contains(item_id),
        ensures
            r@ == seq![ItemKind::Single(item_id)],
    {
        let mut kinds: Vec<ItemKind> = Vec::new();
        kinds.push(ItemKind::Single(item_id));
        let item_tags = self.tags(item_id);
        let mut i: usize = 0;
        while i < item_tags.len()
            invariant
                item_tags@.len() == 0,
                kinds@ == seq![ItemKind::Single(item_id)],
            decreases item_tags.len() - i,
        {
            kinds.push(ItemKind::Tag(item_tags[i]));
            i = i + 1;
        }
        proof {
            assert(kinds@ =~= seq![ItemKind::Single(item_id)]);
        }
        kinds
    }

    /// Returns the complete list of `ItemKind` that match the given tag:
    /// each fluid item in slot order, then the tag itself. Only the fluid
    /// tag can be queried.
    pub fn kinds_with_tag(&self, tag: ItemTag) -> (r: Vec<ItemKind>)
        requires
            tag is Fluid,
        ensures
            r@ == self.fluid_kinds_up_to(self.spec_data().len() as int).push(ItemKind::Tag(tag)),
    {
        let mut kinds: Vec<ItemKind> = Vec::new();
        let ids = self.variants();
        let mut i: usize = 0;
        while i < ids.len()
            invariant
                tag is Fluid,
                i <= ids.len(),
                ids@.len() == self.spec_data().len(),
                forall|k: int| 0 <= k < ids@.len() ==> (#[trigger] ids@[k]).0 == k,
                kinds@ == self.fluid_kinds_up_to(i as int),
            decreases ids.len() - i,
        {
            let item_id = ids[i];
            if self.has_tag(item_id, tag) {
                kinds.push(ItemKind::Single(item_id));
            }
            i = i + 1;
        }
        kinds.push(ItemKind::Tag(tag));
        kinds
    }

    /// Returns the human-readable name associated with the provided
    /// `item_kind`. A single item's kind must name an item the manifest
    /// knows.
    pub fn name_of_kind(&self, item_kind: ItemKind) -> (r: &str)
        requires
            self.wf(),
            item_kind matches ItemKind::Single(id) ==> self.spec_contains(id),
        ensures
            item_kind matches ItemKind::Single(id) ==> r@
                == self.spec_names()[id.0 as int]@,
            item_kind matches ItemKind::Tag(tag) ==> {
                &&& (tag is Fluid ==> r@ == "Fluid"@)
                &&& (tag is Category ==> r@ == "Category"@)
            },
    {
        match item_kind {
            ItemKind::Single(id) => self.name(id).as_str(),
            ItemKind::Tag(tag) => {
                match tag {
                    ItemTag::Fluid => "Fluid",
                    ItemTag::Category => "Category",
                }
            },
        }
    }
}

} // verus!
