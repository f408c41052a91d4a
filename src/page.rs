use vstd::prelude::*;

use slotmap::{DefaultKey, SlotMap};

use crate::label::Label;
use crate::section::{click_behavior, is_section, scrolling, swiping, touchpad, Section, SectionKind};

verus! {

#[verifier::external_type_specification]
#[verifier::external_body]
pub struct ExDefaultKey(DefaultKey);

/// The sections of the settings application, each under a key of its own.
/// They are kept in slotmap's `SlotMap`.
#[verifier::external_body]
pub struct SectionStore {
    slots: SlotMap<DefaultKey, Section>,
}

/// The sections that a store holds, by key.
pub uninterp spec fn stored_sections(m: SectionStore) -> Map<DefaultKey, Section>;

/// Relies on slotmap's `SlotMap::new`: a new map holds nothing.
#[verifier::external_body]
fn empty_store() -> (r: SectionStore)
    ensures
        stored_sections(r).dom().is_empty(),
{
    SectionStore { slots: SlotMap::new() }
}

/// Relies on slotmap's `SlotMap::len`: the number of entries.
#[verifier::external_body]
fn store_len(m: &SectionStore) -> (r: usize)
    ensures
        r == stored_sections(*m).len(),
{
    m.slots.len()
}

/// Relies on slotmap's `SlotMap::get`: the value stored under the key, if
/// any.
#[verifier::external_body]
fn store_get(m: &SectionStore, k: DefaultKey) -> (r: Option<&Section>)
    ensures
        r == (if stored_sections(*m).contains_key(k) {
            Some(&stored_sections(*m)[k])
        } else {
            None
        }),
{
    m.slots.get(k)
}

/// Relies on slotmap's `SlotMap::insert`: the value is stored under a key
/// that held nothing before, and the other entries stay. The map keeps an
/// unused slot at index 0 besides one slot per entry, and panics when it has
/// no free slot and already holds `u32::MAX` slots, that is from
/// `u32::MAX - 1` entries on.
#[verifier::external_body]
fn store_insert(m: &mut SectionStore, s: Section) -> (k: DefaultKey)
    requires
        stored_sections(*old(m)).len() + 1 < u32::MAX,
    ensures
        !stored_sections(*old(m)).contains_key(k),
        stored_sections(*final(m)) == stored_sections(*old(m)).insert(k, s),
        stored_sections(*final(m)).dom().finite(),
        stored_sections(*final(m)).len() == stored_sections(*old(m)).len() + 1,
{
    m.slots.insert(s)
}

impl SectionStore {
    /// An empty store.
    pub fn new() -> (r: SectionStore)
        ensures
            stored_sections(r).dom().is_empty(),
    {
        empty_store()
    }

    /// The number of sections stored.
    pub fn len(&self) -> (r: usize)
        ensures
            r == stored_sections(*self).len(),
    {
        store_len(self)
    }

    /// The section stored under `k`, if any.
    pub fn get(&self, k: DefaultKey) -> (r: Option<&Section>)
        ensures
            r == (if stored_sections(*self).contains_key(k) {
                Some(&stored_sections(*self)[k])
            } else {
                None
            }),
    {
        store_get(self, k)
    }
}

/// What a page tells the settings application about itself.
#[derive(Clone, Copy, Debug, PartialEq, Eq)]
pub struct Info {
    pub id: &'static str,
    pub icon_name: &'static str,
    pub title: Label,
    pub description: Label,
}

/// The touchpad settings page.
#[derive(Clone, Copy, Debug, Default)]
pub struct Page;

impl Page {
    /// The page's id, icon, title and description.
    pub fn info(&self) -> (r: Info)
        ensures
            r.id@ == "touchpad"@,
            r.icon_name@ == "input-touchpad-symbolic"@,
            r.title == Label::Touchpad,
            r.description == Label::TouchpadDesc,
    {
        Info {
            id: "touchpad",
            icon_name: "input-touchpad-symbolic",
            title: Label::Touchpad,
            description: Label::TouchpadDesc,
        }
    }

    /// Stores the page's four sections in `sections`, in the order in which
    /// they are shown, and returns their keys in that order.
    pub fn content(&self, sections: &mut SectionStore) -> (r: Option<Vec<DefaultKey>>)
        requires
            stored_sections(*old(sections)).len() + 5 <= u32::MAX,
        ensures
            r is Some,
            ({
                let keys = r->Some_0@;
                let before = stored_sections(*old(sections));
                let after = stored_sections(*final(sections));
                &&& keys.len() == 4
                &&& after.len() == before.len() + 4
                &&& forall|i: int, j: int| 0 <= i < j < 4 ==> keys[i] != keys[j]
                &&& forall|i: int| 0 <= i < 4 ==> !before.contains_key(#[trigger] keys[i])
                &&& forall|k: DefaultKey| #[trigger] after.contains_key(k)
                    <==> (before.contains_key(k) || keys.contains(k))
                &&& forall|k: DefaultKey| before.contains_key(k) ==> after[k] == before[k]
                &&& is_section(after[keys[0]], SectionKind::Touchpad)
                &&& is_section(after[keys[1]], SectionKind::ClickBehavior)
                &&& is_section(after[keys[2]], SectionKind::Scrolling)
                &&& is_section(after[keys[3]], SectionKind::Gestures)
            }),
    {
        let mut keys: Vec<DefaultKey> = Vec::new();
        let k0 = store_insert(sections, touchpad());
        keys.push(k0);
        let k1 = store_insert(sections, click_behavior());
        keys.push(k1);
        let k2 = store_insert(sections, scrolling());
        keys.push(k2);
        let k3 = store_insert(sections, swiping());
        keys.push(k3);
        assert(keys@ =~= seq![k0, k1, k2, k3]);
        Some(keys)
    }
}

} // verus!
