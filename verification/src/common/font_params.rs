//! The parameters of a font that the layout of scripts and fractions reads.

use vstd::prelude::*;

verus! {

#[derive(Clone, Copy, Debug, PartialEq, Eq, Structural)]
pub struct SubScriptParams {
    pub shift_down: i64,
    pub top_max: i64,
    pub baseline_drop_min: i64,
}

#[derive(Clone, Copy, Debug, PartialEq, Eq, Structural)]
pub struct SuperScriptParams {
    pub shift_up: i64,
    pub bottom_min: i64,
    pub baseline_drop_max: i64,
}

#[derive(Clone, Copy, Debug, PartialEq, Eq, Structural)]
pub struct ScriptParams {
    pub subscript: SubScriptParams,
    pub superscript: SuperScriptParams,
    pub sub_super_gap_min: i64,
    pub super_bottom_max_with_subscript: i64,
}

#[derive(Clone, Copy, Debug, PartialEq, Eq, Structural)]
pub struct LimitParams {
    pub upper_gap_min: i64,
    pub upper_baseline_rise_min: i64,
    pub lower_gap_min: i64,
    pub lower_baseline_drop_min: i64,
}

#[derive(Clone, Copy, Debug, PartialEq, Eq, Structural)]
pub struct GeneralParams {
    pub axis_height: i64,
}

#[derive(Clone, Copy, Debug, PartialEq, Eq, Structural)]
pub struct FractionPartParams {
    pub shift: i64,
    pub gap_min: i64,
}

#[derive(Clone, Copy, Debug, PartialEq, Eq, Structural)]
pub struct FractionParams {
    pub numerator: FractionPartParams,
    pub denominator: FractionPartParams,
    pub rule_thickness: i64,
}

} // verus!
