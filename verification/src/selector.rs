//! Reconciling the table-selected level with the compression-ratio floor,
//! or honouring a forced override.

use vstd::prelude::*;

use crate::level::{calculate_level, spec_select, Level, SequenceContext};

verus! {

/// The level a run settles on.
///
/// A forced level is returned unconditionally: a deliberate escape hatch
/// that bypasses the computed context.  Otherwise the table-selected level
/// is raised to the compression-ratio floor when that floor exceeds it; the
/// compression-ratio constraint only ever pushes the choice upward.
pub fn resolve(context: &SequenceContext, min_cr_floor: u8, forced: Option<Level>) -> (r: Level)
    requires
        min_cr_floor < 32,
    ensures
        match forced {
            Some(f) => r == f,
            None => {
                &&& r.wf()
                &&& r.index as int == if spec_select(*context) >= min_cr_floor as int {
                    spec_select(*context)
                } else {
                    min_cr_floor as int
                }
            },
        },
{
    match forced {
        Some(f) => f,
        None => {
            let selected = calculate_level(context);
            if min_cr_floor > selected.index {
                Level::new(min_cr_floor)
            } else {
                selected
            }
        },
    }
}

} // verus!
