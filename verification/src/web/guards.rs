//! Endpoints that only some addresses may reach.

use crate::utils::text_utils::same_text;
use vstd::prelude::*;

verus! {

/// Lets a request through only where it comes from one of a few addresses.
pub struct IPRestrictedGuard {
    allowed_ip_addresses: &'static [&'static str],
}

/// Whether `address` is one of `allowed`.
pub open spec fn is_allowed(allowed: Seq<&'static str>, address: Seq<char>) -> bool {
    exists|i: int| 0 <= i < allowed.len() && (#[trigger] allowed[i])@ == address
}

impl IPRestrictedGuard {
    /// The addresses that the guard lets through.
    pub closed spec fn allowed(&self) -> Seq<&'static str> {
        self.allowed_ip_addresses@
    }

    pub fn new(allowed_ips: &'static [&'static str]) -> (guard: Self)
        ensures
            guard.allowed() == allowed_ips@,
    {
        Self { allowed_ip_addresses: allowed_ips }
    }

    /// Whether a request from `peer` may pass: its address has to be known
    /// and to be one of the allowed ones.
    pub fn allows(&self, peer: Option<&str>) -> (pass: bool)
        ensures
            pass == match peer {
                Some(address) => is_allowed(self.allowed(), address@),
                None => false,
            },
    {
        match peer {
            Some(address) => {
                let mut i: usize = 0;
                while i < self.allowed_ip_addresses.len()
                    invariant
                        peer == Some(address),
                        i <= self.allowed_ip_addresses@.len(),
                        forall|k: int| 0 <= k < i ==> (#[trigger] self.allowed_ip_addresses@[k])@ != address@,
                    decreases self.allowed_ip_addresses@.len() - i,
                {
                    if same_text(self.allowed_ip_addresses[i], address) {
                        assert(self.allowed()[i as int]@ == address@);
                        return true;
                    }
                    i += 1;
                }
                false
            },
            None => false,
        }
    }
}

} // verus!
