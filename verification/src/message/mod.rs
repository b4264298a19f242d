//! Messages of the pre-vote probe and of the leadership-transfer directive.

pub mod pre_vote;
pub mod timeout_now;
