//! Records of plugin ratings.

use vstd::prelude::*;

verus! {

#[derive(Clone, Debug, PartialEq, Eq)]
pub struct CreateRatingRequest {
    /// Stars, 1 to 5.
    pub rating: i32,
    pub review: Option<String>,
}

/// How many ratings gave how many stars.
#[derive(Clone, Copy, Debug, PartialEq, Eq, Structural)]
pub struct RatingDistribution {
    pub five_star: i32,
    pub four_star: i32,
    pub three_star: i32,
    pub two_star: i32,
    pub one_star: i32,
}

} // verus!
