//! Field selection: which measurement fields are emitted, and in what order.
//!
//! The emitted order is the lexicographic order of the field names
//! (`current`, `power`, `shunt_voltage`, `voltage`), fixed and independent
//! of how the selection was supplied, so that output is reproducible and
//! diffable across runs.

use crate::report::Ina219Result;
use vstd::prelude::*;

verus! {

/// Name of one field of an [`Ina219Result`]. The variants are declared in
/// the lexicographic order of the names they stand for.
#[derive(Clone, Copy, PartialEq, Eq, Structural, Debug)]
pub enum FieldName {
    Current,
    Power,
    ShuntVoltage,
    Voltage,
}

impl FieldName {
    /// The textual name of the field.
    pub open spec fn spec_name(self) -> Seq<char> {
        match self {
            FieldName::Current => "current"@,
            FieldName::Power => "power"@,
            FieldName::ShuntVoltage => "shunt_voltage"@,
            FieldName::Voltage => "voltage"@,
        }
    }

    /// The textual name of the field, for the output record.
    pub fn as_str(&self) -> (r: &'static str)
        ensures
            r@ == self.spec_name(),
    {
        match self {
            FieldName::Current => "current",
            FieldName::Power => "power",
            FieldName::ShuntVoltage => "shunt_voltage",
            FieldName::Voltage => "voltage",
        }
    }
}

/// The set of fields the user asked to emit: one flag per field of an
/// [`Ina219Result`], established once at start and read every iteration.
#[derive(Clone, Copy, PartialEq, Eq, Structural, Debug)]
pub struct FieldSelection {
    pub voltage: bool,
    pub shunt_voltage: bool,
    pub current: bool,
    pub power: bool,
}

/// The default selection substituted when no field was asked for.
pub open spec fn spec_default_selection() -> FieldSelection {
    FieldSelection { voltage: true, shunt_voltage: false, current: true, power: false }
}

impl FieldSelection {
    /// Whether at least one field is selected.
    pub open spec fn any_selected(self) -> bool {
        self.voltage || self.shunt_voltage || self.current || self.power
    }

    /// Resolves the configured selection into the one the loop will use:
    /// a selection with no field set is replaced by the default
    /// (`voltage` and `current`), never left empty. The second component
    /// says whether that substitution happened, so the caller can emit a
    /// diagnostic notice.
    pub fn resolve(&self) -> (r: (FieldSelection, bool))
        ensures
            r.1 == !self.any_selected(),
            self.any_selected() ==> r.0 == *self,
            !self.any_selected() ==> r.0 == spec_default_selection(),
            r.0.any_selected(),
    {
        if self.voltage || self.shunt_voltage || self.current || self.power {
            (*self, false)
        } else {
            (FieldSelection { voltage: true, shunt_voltage: false, current: true, power: false }, true)
        }
    }
}

/// The ordered record that `sel` selects out of `rec`: exactly the selected
/// fields, each paired with its name, in the lexicographic order of the
/// names.
pub open spec fn spec_select(rec: Ina219Result, sel: FieldSelection) -> Seq<(FieldName, i64)> {
    (if sel.current {
        seq![(FieldName::Current, rec.current)]
    } else {
        Seq::empty()
    }) + (if sel.power {
        seq![(FieldName::Power, rec.power)]
    } else {
        Seq::empty()
    }) + (if sel.shunt_voltage {
        seq![(FieldName::ShuntVoltage, rec.shunt_voltage)]
    } else {
        Seq::empty()
    }) + (if sel.voltage {
        seq![(FieldName::Voltage, rec.voltage)]
    } else {
        Seq::empty()
    })
}

/// Filters `rec` down to the fields selected by `sel`, in the fixed
/// lexicographic name order. A pure filter: it has no failure modes.
pub fn select_fields(rec: &Ina219Result, sel: &FieldSelection) -> (r: Vec<(FieldName, i64)>)
    ensures
        r@ == spec_select(*rec, *sel),
{
    let mut r: Vec<(FieldName, i64)> = Vec::new();
    if sel.current {
        r.push((FieldName::Current, rec.current));
    }
    if sel.power {
        r.push((FieldName::Power, rec.power));
    }
    if sel.shunt_voltage {
        r.push((FieldName::ShuntVoltage, rec.shunt_voltage));
    }
    if sel.voltage {
        r.push((FieldName::Voltage, rec.voltage));
    }
    proof {
        assert(r@ =~= spec_select(*rec, *sel));
    }
    r
}

/// `a` comes strictly before `b` in lexicographic character order.
pub open spec fn lex_lt(a: Seq<char>, b: Seq<char>) -> bool
    decreases a.len(),
{
    if b.len() == 0 {
        false
    } else if a.len() == 0 {
        true
    } else if (a[0] as u32) < (b[0] as u32) {
        true
    } else if a[0] == b[0] {
        lex_lt(a.skip(1), b.skip(1))
    } else {
        false
    }
}

/// Where a variant stands in the declaration order of [`FieldName`].
pub open spec fn spec_rank(f: FieldName) -> int {
    match f {
        FieldName::Current => 0,
        FieldName::Power => 1,
        FieldName::ShuntVoltage => 2,
        FieldName::Voltage => 3,
    }
}

/// The declaration order of [`FieldName`] is the lexicographic order of the
/// names the variants stand for.
proof fn lemma_rank_orders_names(a: FieldName, b: FieldName)
    requires
        spec_rank(a) < spec_rank(b),
    ensures
        lex_lt(a.spec_name(), b.spec_name()),
{
    reveal_strlit("current");
    reveal_strlit("power");
    reveal_strlit("shunt_voltage");
    reveal_strlit("voltage");
}

/// Law: the emitted record is ordered by field name. Whatever the
/// measurement values and whichever fields are selected, a field that
/// stands before another in the selected record has the lexicographically
/// smaller name — the same fixed order on every run.
pub proof fn lemma_select_order_lexicographic(
    rec: Ina219Result,
    sel: FieldSelection,
    i: int,
    j: int,
)
    requires
        0 <= i < j < spec_select(rec, sel).len(),
    ensures
        lex_lt(spec_select(rec, sel)[i].0.spec_name(), spec_select(rec, sel)[j].0.spec_name()),
{
    let s = spec_select(rec, sel);
    assert(spec_rank(s[i].0) < spec_rank(s[j].0));
    lemma_rank_orders_names(s[i].0, s[j].0);
}

} // verus!
