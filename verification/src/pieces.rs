//! Property lists for optional settings: each helper yields one property
//! when the setting is present and none when it is absent.

use vstd::prelude::*;
use crate::text::{dec_i64, dec_u64, spec_dec, spec_dec_int, string_of};
use crate::types::{
    extend_args, prefixed, props_view, single, spec_argb_text, spec_bool_text, spec_prefixed,
    Argb, Property, PropView, SketchyBool, ToSketchybarArgs, ToggleState,
};

verus! {

/// The decimal text of an unsigned 32-bit number.
pub fn dec_u32(n: u32) -> (r: String)
    ensures
        r@ == spec_dec(n as nat),
{
    dec_u64(n as u64)
}

/// The decimal text of a signed 32-bit number.
pub fn dec_i32(n: i32) -> (r: String)
    ensures
        r@ == spec_dec_int(n as int),
{
    dec_i64(n as i64)
}

pub open spec fn spec_opt_toggle(key: Seq<char>, v: Option<ToggleState>) -> Seq<PropView> {
    match v {
        Some(t) => seq![(key, t.spec_text())],
        None => seq![],
    }
}

pub open spec fn spec_opt_bool(key: Seq<char>, v: Option<bool>) -> Seq<PropView> {
    match v {
        Some(b) => seq![(key, spec_bool_text(b))],
        None => seq![],
    }
}

pub open spec fn spec_opt_u32(key: Seq<char>, v: Option<u32>) -> Seq<PropView> {
    match v {
        Some(n) => seq![(key, spec_dec(n as nat))],
        None => seq![],
    }
}

pub open spec fn spec_opt_i32(key: Seq<char>, v: Option<i32>) -> Seq<PropView> {
    match v {
        Some(n) => seq![(key, spec_dec_int(n as int))],
        None => seq![],
    }
}

pub open spec fn spec_opt_argb(key: Seq<char>, v: Option<Argb>) -> Seq<PropView> {
    match v {
        Some(c) => seq![(key, spec_argb_text(c))],
        None => seq![],
    }
}

pub open spec fn spec_opt_string(key: Seq<char>, v: Option<String>) -> Seq<PropView> {
    match v {
        Some(s) => seq![(key, s@)],
        None => seq![],
    }
}

/// The properties of a nested value, each name prefixed, when present.
pub open spec fn spec_opt_prefixed<T: ToSketchybarArgs>(pre: Seq<char>, v: Option<T>) -> Seq<
    PropView,
> {
    match v {
        Some(t) => spec_prefixed(pre, t.spec_args()),
        None => seq![],
    }
}

/// The properties of a nested value, unchanged, when present.
pub open spec fn spec_opt_args<T: ToSketchybarArgs>(v: Option<T>) -> Seq<PropView> {
    match v {
        Some(t) => t.spec_args(),
        None => seq![],
    }
}

/// No properties.
pub fn none_args() -> (r: Vec<Property>)
    ensures
        props_view(r@) == Seq::<PropView>::empty(),
{
    let v: Vec<Property> = Vec::new();
    assert(props_view(v@) =~= Seq::<PropView>::empty());
    v
}

pub fn opt_toggle(key: &str, v: Option<ToggleState>) -> (r: Vec<Property>)
    ensures
        props_view(r@) == spec_opt_toggle(key@, v),
{
    match v {
        Some(t) => single(key, t.to_on_off()),
        None => none_args(),
    }
}

pub fn opt_bool(key: &str, v: Option<bool>) -> (r: Vec<Property>)
    ensures
        props_view(r@) == spec_opt_bool(key@, v),
{
    match v {
        Some(b) => single(key, b.to_on_off()),
        None => none_args(),
    }
}

pub fn opt_u32(key: &str, v: Option<u32>) -> (r: Vec<Property>)
    ensures
        props_view(r@) == spec_opt_u32(key@, v),
{
    match v {
        Some(n) => single(key, dec_u32(n)),
        None => none_args(),
    }
}

pub fn opt_i32(key: &str, v: Option<i32>) -> (r: Vec<Property>)
    ensures
        props_view(r@) == spec_opt_i32(key@, v),
{
    match v {
        Some(n) => single(key, dec_i32(n)),
        None => none_args(),
    }
}

pub fn opt_argb(key: &str, v: Option<Argb>) -> (r: Vec<Property>)
    ensures
        props_view(r@) == spec_opt_argb(key@, v),
{
    match v {
        Some(c) => single(key, c.render()),
        None => none_args(),
    }
}

pub fn opt_string(key: &str, v: &Option<String>) -> (r: Vec<Property>)
    ensures
        props_view(r@) == spec_opt_string(key@, *v),
{
    match v {
        Some(s) => single(key, s.clone()),
        None => none_args(),
    }
}

pub fn opt_prefixed<T: ToSketchybarArgs>(pre: &str, v: &Option<T>) -> (r: Vec<Property>)
    ensures
        props_view(r@) == spec_opt_prefixed(pre@, *v),
{
    match v {
        Some(t) => prefixed(pre, t.to_sketchybar_args()),
        None => none_args(),
    }
}

pub fn opt_args<T: ToSketchybarArgs>(v: &Option<T>) -> (r: Vec<Property>)
    ensures
        props_view(r@) == spec_opt_args(*v),
{
    match v {
        Some(t) => t.to_sketchybar_args(),
        None => none_args(),
    }
}

/// Appends `other` to `args` (a shorthand used when assembling lists).
pub fn then(args: Vec<Property>, other: Vec<Property>) -> (r: Vec<Property>)
    ensures
        props_view(r@) == props_view(args@) + props_view(other@),
{
    let mut a = args;
    extend_args(&mut a, other);
    a
}

} // verus!
