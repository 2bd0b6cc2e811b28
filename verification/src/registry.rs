//! Which advertised compositor globals the engine binds.
//!
//! At startup the registry announces every global interface by name; the
//! engine needs exactly five of them, each bound at a fixed version, and
//! treats every other announcement as a no-op. The names below are the
//! protocol interface names, held as their ASCII bytes.

use vstd::prelude::*;

verus! {

/// A compositor capability the engine requires; all five are mandatory.
#[derive(Clone, Copy, Debug, PartialEq, Eq, Structural)]
pub enum Capability {
    /// The input-method extension manager.
    InputMethodManager,
    /// The seat that delivers pointer, keyboard and tablet input.
    Seat,
    /// The compositor that creates surfaces.
    Compositor,
    /// The shared-memory buffer factory.
    Shm,
    /// The tablet extension manager.
    TabletManager,
}

/// The interface name of the input-method manager: `zwp_input_method_manager_v2`.
pub open spec fn im_manager_name() -> Seq<u8> {
    seq![122u8, 119u8, 112u8, 95u8, 105u8, 110u8, 112u8, 117u8, 116u8, 95u8, 109u8, 101u8, 116u8, 104u8, 111u8, 100u8, 95u8, 109u8, 97u8, 110u8, 97u8, 103u8, 101u8, 114u8, 95u8, 118u8, 50u8]
}

/// The interface name of the seat: `wl_seat`.
pub open spec fn seat_name() -> Seq<u8> {
    seq![119u8, 108u8, 95u8, 115u8, 101u8, 97u8, 116u8]
}

/// The interface name of the compositor: `wl_compositor`.
pub open spec fn compositor_name() -> Seq<u8> {
    seq![119u8, 108u8, 95u8, 99u8, 111u8, 109u8, 112u8, 111u8, 115u8, 105u8, 116u8, 111u8, 114u8]
}

/// The interface name of the shared-memory factory: `wl_shm`.
pub open spec fn shm_name() -> Seq<u8> {
    seq![119u8, 108u8, 95u8, 115u8, 104u8, 109u8]
}

/// The interface name of the tablet manager: `zwp_tablet_manager_v2`.
pub open spec fn tablet_manager_name() -> Seq<u8> {
    seq![122u8, 119u8, 112u8, 95u8, 116u8, 97u8, 98u8, 108u8, 101u8, 116u8, 95u8, 109u8, 97u8, 110u8, 97u8, 103u8, 101u8, 114u8, 95u8, 118u8, 50u8]
}

/// Which capability an announced interface name carries, if any.
pub open spec fn classify_spec(name: Seq<u8>) -> Option<Capability> {
    if name == im_manager_name() {
        Some(Capability::InputMethodManager)
    } else if name == seat_name() {
        Some(Capability::Seat)
    } else if name == compositor_name() {
        Some(Capability::Compositor)
    } else if name == shm_name() {
        Some(Capability::Shm)
    } else if name == tablet_manager_name() {
        Some(Capability::TabletManager)
    } else {
        None
    }
}

/// Byte-for-byte equality of two byte strings.
fn bytes_eq(a: &[u8], b: &[u8]) -> (r: bool)
    ensures
        r == (a@ == b@),
{
    if a.len() != b.len() {
        proof {
            assert(a@.len() != b@.len());
        }
        return false;
    }
    let len = a.len();
    let mut i: usize = 0;
    while i < len
        invariant
            len == a@.len(),
            len == b@.len(),
            0 <= i <= len,
            forall|k: int| 0 <= k < i ==> a@[k] == b@[k],
        decreases len - i,
    {
        if a[i] != b[i] {
            return false;
        }
        i = i + 1;
    }
    proof {
        assert(a@ =~= b@);
    }
    true
}

/// Classify one announced global interface by its name.
pub fn classify_interface(name: &[u8]) -> (r: Option<Capability>)
    ensures
        r == classify_spec(name@),
{

    let im_manager: Vec<u8> = vec![122u8, 119u8, 112u8, 95u8, 105u8, 110u8, 112u8, 117u8, 116u8, 95u8, 109u8, 101u8, 116u8, 104u8, 111u8, 100u8, 95u8, 109u8, 97u8, 110u8, 97u8, 103u8, 101u8, 114u8, 95u8, 118u8, 50u8];
    proof {
        assert(im_manager@ =~= im_manager_name());
    }
    if bytes_eq(name, im_manager.as_slice()) {
        return Some(Capability::InputMethodManager);
    }

    let seat: Vec<u8> = vec![119u8, 108u8, 95u8, 115u8, 101u8, 97u8, 116u8];
    proof {
        assert(seat@ =~= seat_name());
    }
    if bytes_eq(name, seat.as_slice()) {
        return Some(Capability::Seat);
    }

    let compositor: Vec<u8> = vec![119u8, 108u8, 95u8, 99u8, 111u8, 109u8, 112u8, 111u8, 115u8, 105u8, 116u8, 111u8, 114u8];
    proof {
        assert(compositor@ =~= compositor_name());
    }
    if bytes_eq(name, compositor.as_slice()) {
        return Some(Capability::Compositor);
    }

    let shm: Vec<u8> = vec![119u8, 108u8, 95u8, 115u8, 104u8, 109u8];
    proof {
        assert(shm@ =~= shm_name());
    }
    if bytes_eq(name, shm.as_slice()) {
        return Some(Capability::Shm);
    }

    let tablet_manager: Vec<u8> = vec![122u8, 119u8, 112u8, 95u8, 116u8, 97u8, 98u8, 108u8, 101u8, 116u8, 95u8, 109u8, 97u8, 110u8, 97u8, 103u8, 101u8, 114u8, 95u8, 118u8, 50u8];
    proof {
        assert(tablet_manager@ =~= tablet_manager_name());
    }
    if bytes_eq(name, tablet_manager.as_slice()) {
        return Some(Capability::TabletManager);
    }

    None
}

/// The protocol version the engine binds each capability at.
pub open spec fn bind_version_spec(cap: Capability) -> u32 {
    match cap {
        Capability::InputMethodManager => 1u32,
        Capability::Seat => 8u32,
        Capability::Compositor => 4u32,
        Capability::Shm => 1u32,
        Capability::TabletManager => 1u32,
    }
}

/// The version to pass when binding `cap`.
pub fn bind_version(cap: Capability) -> (v: u32)
    ensures
        v == bind_version_spec(cap),
{
    match cap {
        Capability::InputMethodManager => 1,
        Capability::Seat => 8,
        Capability::Compositor => 4,
        Capability::Shm => 1,
        Capability::TabletManager => 1,
    }
}

} // verus!
