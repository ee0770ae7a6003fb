//! The merge algebra: how a higher-precedence value combines with a lower one.
//!
//! Three shapes of field exist. A plain optional field is taken from the
//! override when it is set there. A map keeps the keys of both sides, the
//! override winning where both have a key. A tri-state setting is taken from
//! the override unless the override leaves it unspecified.

use vstd::prelude::*;
use crate::string_map::merged_map;

verus! {

/// The rule for a plain optional field: the override wins when it is set,
/// otherwise the base value falls through.
pub open spec fn merged_option<T>(base: Option<T>, over: Option<T>) -> Option<T> {
    if over is Some {
        over
    } else {
        base
    }
}

/// Combines two optional values, with `over` taking precedence.
pub fn merge_option<T>(base: Option<T>, over: Option<T>) -> (merged: Option<T>)
    ensures
        merged == merged_option(base, over),
{
    match over {
        Some(v) => Some(v),
        None => base,
    }
}

/// A setting that a layer can state, retract or leave alone.
///
/// `Removed` is not the same as `Unspecified`: a layer that removes a setting
/// overrides a lower layer that has it present, while a layer that leaves it
/// unspecified lets the lower layer's choice stand.
#[derive(Debug, PartialEq, Eq)]
pub enum PluginSetting<T> {
    Unspecified,
    Removed,
    Present(T),
}

impl<T: DeepView> DeepView for PluginSetting<T> {
    type V = PluginSetting<T::V>;

    open spec fn deep_view(&self) -> PluginSetting<T::V> {
        match self {
            PluginSetting::Unspecified => PluginSetting::Unspecified,
            PluginSetting::Removed => PluginSetting::Removed,
            PluginSetting::Present(t) => PluginSetting::Present(t.deep_view()),
        }
    }
}

impl<T> PluginSetting<T> {
    /// Whether a layer has said anything about this setting.
    pub open spec fn is_configured(self) -> bool {
        !(self is Unspecified)
    }

    /// Whether a layer has said anything about this setting.
    pub fn configured(&self) -> (yes: bool)
        ensures
            yes == self.is_configured(),
    {
        match self {
            PluginSetting::Unspecified => false,
            _ => true,
        }
    }
}

/// The rule for a tri-state setting: an unspecified override yields to the
/// base; a removal or a presence in the override replaces the base.
pub open spec fn merged_setting<T>(base: PluginSetting<T>, over: PluginSetting<T>) -> PluginSetting<T> {
    if over is Unspecified {
        base
    } else {
        over
    }
}

/// Combines two tri-state settings, with `over` taking precedence.
pub fn merge_setting<T>(base: PluginSetting<T>, over: PluginSetting<T>) -> (merged: PluginSetting<T>)
    ensures
        merged == merged_setting(base, over),
{
    match over {
        PluginSetting::Unspecified => base,
        other => other,
    }
}

/// What precedence asks of a merged optional field: the override's value
/// where the override sets one, and else the base's.
pub open spec fn option_precedence<T>(base: Option<T>, over: Option<T>, merged: Option<T>) -> bool {
    &&& over is Some ==> merged == over
    &&& over is None ==> merged == base
}

/// What precedence asks of a merged tri-state setting: the override's
/// removal or presence where the override has one, and else the base's
/// setting.
pub open spec fn setting_precedence<T>(
    base: PluginSetting<T>,
    over: PluginSetting<T>,
    merged: PluginSetting<T>,
) -> bool {
    &&& over.is_configured() ==> merged == over
    &&& !over.is_configured() ==> merged == base
}

/// What precedence asks of a merged map: the keys of both sides and no
/// others, a key of the override with the override's value, and any other
/// key with the base's.
pub open spec fn map_precedence(
    base: Map<Seq<char>, Seq<char>>,
    over: Map<Seq<char>, Seq<char>>,
    merged: Map<Seq<char>, Seq<char>>,
) -> bool {
    forall|key: Seq<char>|
        #![auto]
        {
            &&& merged.contains_key(key) <==> base.contains_key(key) || over.contains_key(key)
            &&& over.contains_key(key) ==> merged[key] == over[key]
            &&& base.contains_key(key) && !over.contains_key(key) ==> merged[key] == base[key]
        }
}

/// Merging optional fields is associative.
pub proof fn lemma_option_merge_associative<T>(a: Option<T>, b: Option<T>, c: Option<T>)
    ensures
        merged_option(merged_option(a, b), c) == merged_option(a, merged_option(b, c)),
{
}

/// An unset field is the identity of the merge on both sides.
pub proof fn lemma_option_merge_identity<T>(a: Option<T>)
    ensures
        merged_option(a, None) == a,
        merged_option(None, a) == a,
{
}

/// The merge of optional fields keeps precedence.
pub proof fn lemma_option_merge_precedence<T>(base: Option<T>, over: Option<T>)
    ensures
        option_precedence(base, over, merged_option(base, over)),
{
}

/// Merging tri-state settings is associative.
pub proof fn lemma_setting_merge_associative<T>(
    a: PluginSetting<T>,
    b: PluginSetting<T>,
    c: PluginSetting<T>,
)
    ensures
        merged_setting(merged_setting(a, b), c) == merged_setting(a, merged_setting(b, c)),
{
}

/// An unspecified setting is the identity of the merge on both sides.
pub proof fn lemma_setting_merge_identity<T>(a: PluginSetting<T>)
    ensures
        merged_setting(a, PluginSetting::Unspecified) == a,
        merged_setting(PluginSetting::Unspecified, a) == a,
{
}

/// The merge of tri-state settings keeps precedence: a removal or a
/// presence in the override is the merged setting, whatever the base holds.
pub proof fn lemma_setting_merge_precedence<T>(base: PluginSetting<T>, over: PluginSetting<T>)
    ensures
        setting_precedence(base, over, merged_setting(base, over)),
{
}

/// Merging maps is associative.
pub proof fn lemma_map_merge_associative(
    a: Map<Seq<char>, Seq<char>>,
    b: Map<Seq<char>, Seq<char>>,
    c: Map<Seq<char>, Seq<char>>,
)
    ensures
        merged_map(merged_map(a, b), c) == merged_map(a, merged_map(b, c)),
{
    assert(merged_map(merged_map(a, b), c) =~= merged_map(a, merged_map(b, c)));
}

/// The empty map is the identity of the merge on both sides.
pub proof fn lemma_map_merge_identity(a: Map<Seq<char>, Seq<char>>)
    ensures
        merged_map(a, Map::empty()) == a,
        merged_map(Map::empty(), a) == a,
{
    assert(merged_map(a, Map::empty()) =~= a);
    assert(merged_map(Map::empty(), a) =~= a);
}

/// The merge of maps keeps precedence.
pub proof fn lemma_map_merge_precedence(base: Map<Seq<char>, Seq<char>>, over: Map<Seq<char>, Seq<char>>)
    ensures
        map_precedence(base, over, merged_map(base, over)),
{
}

} // verus!
