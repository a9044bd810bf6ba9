//! The method descriptor: the table of callback slots, plus a type tag and
//! a short display name, that tells the foreign library how to operate a
//! custom channel object.
//!
//! Exactly two descriptor values ever exist per stream type: the *active*
//! one, with every I/O callback populated and no destroy slot (teardown is
//! handled by detaching first), and the *inert* one, with only a destroy
//! slot, installed at detachment so that the foreign library's generic
//! teardown path never reaches the original table or state again.

use vstd::prelude::*;

verus! {

/// Type tag for a non-standard, custom channel type.
pub const BIO_TYPE_NONE: i32 = 0;

/// The control command code for "flush".
pub const BIO_CTRL_FLUSH: i32 = 11;

/// The descriptor's display name: "rust", null-terminated.
pub open spec fn method_name() -> Seq<u8> {
    seq![114u8, 117u8, 115u8, 116u8, 0u8]
}

/// A method descriptor: which of the callback slots are populated, with the
/// type tag and display name the foreign library uses for diagnostics.
#[derive(Clone, Copy, Debug)]
pub struct BioMethod {
    pub type_tag: i32,
    pub name: [u8; 5],
    pub has_create: bool,
    pub has_bwrite: bool,
    pub has_bread: bool,
    pub has_bputs: bool,
    pub has_bgets: bool,
    pub has_ctrl: bool,
    pub has_destroy: bool,
    pub has_callback_ctrl: bool,
}

/// The slot pattern of the active descriptor: every callback the adapter
/// implements is populated, and the destroy slot is left empty.
pub open spec fn active_slots(m: BioMethod) -> bool {
    &&& m.has_create
    &&& m.has_bwrite
    &&& m.has_bread
    &&& m.has_bputs
    &&& m.has_ctrl
    &&& !m.has_bgets
    &&& !m.has_destroy
    &&& !m.has_callback_ctrl
}

/// The slot pattern of the inert descriptor: only the destroy slot is
/// populated.
pub open spec fn inert_slots(m: BioMethod) -> bool {
    &&& m.has_destroy
    &&& !m.has_create
    &&& !m.has_bwrite
    &&& !m.has_bread
    &&& !m.has_bputs
    &&& !m.has_bgets
    &&& !m.has_ctrl
    &&& !m.has_callback_ctrl
}

/// A well-formed active descriptor.
pub open spec fn is_active(m: BioMethod) -> bool {
    &&& active_slots(m)
    &&& m.type_tag == BIO_TYPE_NONE
    &&& m.name@ == method_name()
}

/// A well-formed inert descriptor.
pub open spec fn is_inert(m: BioMethod) -> bool {
    &&& inert_slots(m)
    &&& m.type_tag == BIO_TYPE_NONE
    &&& m.name@ == method_name()
}

/// The one inert descriptor value, as a mathematical constant; detachment
/// installs exactly this value, modelling the shared, never-freed table.
pub open spec fn inert_method_spec() -> BioMethod {
    BioMethod {
        type_tag: 0,
        name: [114u8, 117u8, 115u8, 116u8, 0u8],
        has_create: false,
        has_bwrite: false,
        has_bread: false,
        has_bputs: false,
        has_bgets: false,
        has_ctrl: false,
        has_destroy: true,
        has_callback_ctrl: false,
    }
}

/// Builds the active descriptor handed to the foreign library at
/// construction time.
pub fn active_method() -> (m: BioMethod)
    ensures
        is_active(m),
{
    let m = BioMethod {
        type_tag: BIO_TYPE_NONE,
        name: [114u8, 117u8, 115u8, 116u8, 0u8],
        has_create: true,
        has_bwrite: true,
        has_bread: true,
        has_bputs: true,
        has_bgets: false,
        has_ctrl: true,
        has_destroy: false,
        has_callback_ctrl: false,
    };
    proof {
        assert(m.name@ =~= method_name());
    }
    m
}

/// Builds the inert, destroy-only descriptor installed at detachment.
pub fn inert_method() -> (m: BioMethod)
    ensures
        is_inert(m),
        m == inert_method_spec(),
{
    let m = BioMethod {
        type_tag: BIO_TYPE_NONE,
        name: [114u8, 117u8, 115u8, 116u8, 0u8],
        has_create: false,
        has_bwrite: false,
        has_bread: false,
        has_bputs: false,
        has_bgets: false,
        has_ctrl: false,
        has_destroy: true,
        has_callback_ctrl: false,
    };
    proof {
        assert(m.name@ =~= method_name());
    }
    m
}

/// The two descriptor shapes exclude one another.
pub proof fn lemma_active_not_inert(m: BioMethod)
    ensures
        !(is_active(m) && is_inert(m)),
{
}

} // verus!
