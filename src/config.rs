use vstd::prelude::*;

verus! {

/// The two thresholds that split the list into its main, extended and legacy parts: positions up
/// to `list_size` form the main list, those up to `extended_list_size` the extended list, and the
/// rest the legacy list.
#[derive(Debug, Clone, Copy, PartialEq, Eq, Structural)]
pub struct ListConfig {
    pub list_size: i16,
    pub extended_list_size: i16,
}

} // verus!
