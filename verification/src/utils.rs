use vstd::prelude::*;

use crate::{
    constants::MAX_REALLOC_BYTES,
    error::TipRouterError,
    loaders::ProgramError,
};

verus! {

/// The size to grow an account to: `MAX_REALLOC_BYTES` more than now, but
/// no more than the target.
pub open spec fn new_size(current_size: usize, target_size: usize) -> Result<usize, ProgramError> {
    if current_size + MAX_REALLOC_BYTES > usize::MAX {
        Err(ProgramError::ArithmeticOverflow)
    } else if current_size + MAX_REALLOC_BYTES < target_size {
        Ok((current_size + MAX_REALLOC_BYTES) as usize)
    } else {
        Ok(target_size)
    }
}

/// Calculates the new size for a reallocation, capped at the target size:
/// the smaller of `current_size + MAX_REALLOC_BYTES` and `target_size`.
pub fn get_new_size(current_size: usize, target_size: usize) -> (r: Result<usize, ProgramError>)
    ensures
        r == new_size(current_size, target_size),
{
    let grown = match current_size.checked_add(MAX_REALLOC_BYTES as usize) {
        Some(g) => g,
        None => {
            return Err(ProgramError::ArithmeticOverflow);
        },
    };
    if grown < target_size {
        Ok(grown)
    } else {
        Ok(target_size)
    }
}

/// Asserts that `test_error` is the error `tip_router_error`.
pub fn assert_tip_router_error<T>(test_error: Result<T, TipRouterError>, tip_router_error: TipRouterError)
    requires
        test_error matches Err(e) && e == tip_router_error,
{
    match test_error {
        Ok(_) => {},
        Err(e) => {
            assert(e == tip_router_error);
        },
    }
}

} // verus!
