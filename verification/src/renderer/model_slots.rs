//! The slot map that owns the shader values of every model.
//!
//! The map comes from the `slotmap` crate. Verus does not read that crate,
//! so what the map holds is named by uninterpreted functions, and each call
//! into the crate stands in a small function whose contract is believed, not
//! proved.
use vstd::prelude::*;
use slotmap::DefaultKey;
use slotmap::Key;
use slotmap::SlotMap;
use crate::renderer::shaders::PerModelShaderVals;

verus! {

/// `slotmap::DefaultKey`, carried through as an opaque value.
#[verifier::external_type_specification]
#[verifier::external_body]
pub struct ExDefaultKey(DefaultKey);

/// A `slotmap::SlotMap` from `DefaultKey` to `PerModelShaderVals`.
#[verifier::external_body]
pub struct ModelShaderValsMap {
    slots: SlotMap<DefaultKey, PerModelShaderVals>,
}

/// The 64-bit number that `KeyData::as_ffi` gives for a key.
pub uninterp spec fn key_id(key: DefaultKey) -> u64;

/// The values that a slot map holds, each under the number of its key.
pub uninterp spec fn slot_contents(slots: ModelShaderValsMap) -> Map<u64, PerModelShaderVals>;

/// The number of slots that a slot map has made so far, the sentinel slot
/// included. A map cannot make more than `u32::MAX` of them.
pub uninterp spec fn slot_span(slots: ModelShaderValsMap) -> nat;

/// `Key::data` followed by `KeyData::as_ffi`: the number of a key.
#[verifier::external_body]
pub(crate) fn key_bits(key: DefaultKey) -> (bits: u64)
    ensures
        bits == key_id(key),
{
    key.data().as_ffi()
}

/// `SlotMap::with_key`: an empty map, which has made the sentinel slot only.
#[verifier::external_body]
pub(crate) fn slots_new() -> (slots: ModelShaderValsMap)
    ensures
        forall|id: u64| !slot_contents(slots).contains_key(id),
        slot_span(slots) == 1,
{
    ModelShaderValsMap { slots: SlotMap::with_key() }
}

/// `SlotMap::insert`: stores `value` under a key that the map does not hold
/// and returns that key; every other entry stays. The call makes at most one
/// new slot. It panics where the map would need a slot beyond `u32::MAX`,
/// which `requires` leaves out.
#[verifier::external_body]
pub(crate) fn slots_insert(
    slots: &mut ModelShaderValsMap,
    value: PerModelShaderVals,
) -> (key: DefaultKey)
    requires
        slot_span(*old(slots)) < u32::MAX,
    ensures
        !slot_contents(*old(slots)).contains_key(key_id(key)),
        slot_contents(*final(slots)) == slot_contents(*old(slots)).insert(key_id(key), value),
        slot_span(*old(slots)) <= slot_span(*final(slots)) <= slot_span(*old(slots)) + 1,
{
    slots.slots.insert(value)
}

/// `SlotMap::get`: the value under `key`, if the map holds that key.
#[verifier::external_body]
pub(crate) fn slots_get(slots: &ModelShaderValsMap, key: DefaultKey) -> (value: Option<
    &PerModelShaderVals,
>)
    ensures
        value is Some <==> slot_contents(*slots).contains_key(key_id(key)),
        value is Some ==> *value->Some_0 == slot_contents(*slots)[key_id(key)],
{
    slots.slots.get(key)
}

/// `SlotMap::get_mut`: the value under `key`, if the map holds that key.
/// What the caller leaves in the reference is what the map then holds under
/// `key`; nothing else in the map changes.
#[verifier::external_body]
pub(crate) fn slots_get_mut(slots: &mut ModelShaderValsMap, key: DefaultKey) -> (value: Option<
    &mut PerModelShaderVals,
>)
    ensures
        value is Some <==> slot_contents(*old(slots)).contains_key(key_id(key)),
        value is Some ==> *value->Some_0 == slot_contents(*old(slots))[key_id(key)],
        value is Some ==> slot_contents(*final(slots)) == slot_contents(*old(slots)).insert(
            key_id(key),
            *final(value->Some_0),
        ),
        value is None ==> slot_contents(*final(slots)) == slot_contents(*old(slots)),
        slot_span(*final(slots)) == slot_span(*old(slots)),
{
    slots.slots.get_mut(key)
}

/// The key under which the renderer keeps the shader values of one model.
#[derive(Clone, Copy, Debug, PartialEq, Eq)]
pub struct ModelShaderValsKey {
    key: DefaultKey,
}

impl ModelShaderValsKey {
    /// The number that identifies the key.
    pub closed spec fn id(self) -> u64 {
        key_id(self.key)
    }

    pub(crate) fn from_key(key: DefaultKey) -> (k: Self)
        ensures
            k.id() == key_id(key),
    {
        ModelShaderValsKey { key }
    }

    pub(crate) fn slot_key(self) -> (key: DefaultKey)
        ensures
            key_id(key) == self.id(),
    {
        self.key
    }

    /// The number that identifies the key.
    pub fn to_bits(self) -> (bits: u64)
        ensures
            bits == self.id(),
    {
        key_bits(self.key)
    }
}

} // verus!
