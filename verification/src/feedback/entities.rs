//! The entities the feedback plugin works with.

use vstd::prelude::*;

pub use crate::data_client::entities::{
    ApiResponse, DateTime, FeedbackDetail, FeedbackList, FeedbackMsg, FeedbackMsgType,
    FeedbackStatus, RabbitFeedbackMessage,
};

verus! {

/// A page of feedback items with the total count, as the plugin keeps it.
pub struct FeedbackListResponse {
    pub rows: Vec<FeedbackDetail>,
    pub count: i64,
}

} // verus!
