//! The daily greetings: what the bot says to its group, and when.

use vstd::prelude::*;
use crate::text::{chars_of, string_of};

verus! {

pub struct Configs {
    pub daily_greeting: DailyGreeting,
}

pub struct DailyGreeting {
    /// The group that is greeted.
    pub group_id: String,
}

/// A message sent on a schedule: a cron expression and the text.
pub struct Greeting {
    pub cron: String,
    pub text: String,
}

/// The scheduled greetings: "早上好！" at eight in the morning and "下班！" at eight in the
/// evening, every day.
pub fn scheduled_greetings() -> (r: Vec<Greeting>)
    ensures
        r@.len() == 2,
        r@[0].cron@ == "0 8 * * *"@ && r@[0].text@ == "早上好！"@,
        r@[1].cron@ == "0 20 * * *"@ && r@[1].text@ == "下班！"@,
{
    let mut r: Vec<Greeting> = Vec::new();
    r.push(Greeting { cron: string_of(&chars_of("0 8 * * *")), text: string_of(&chars_of("早上好！")) });
    r.push(Greeting { cron: string_of(&chars_of("0 20 * * *")), text: string_of(&chars_of("下班！")) });
    r
}

/// What the bot says when it comes online.
pub fn online_text() -> (r: String)
    ensures
        r@ == "我上线了"@,
{
    string_of(&chars_of("我上线了"))
}

/// What the bot says when it goes offline.
pub fn offline_text() -> (r: String)
    ensures
        r@ == "下了"@,
{
    string_of(&chars_of("下了"))
}

} // verus!
