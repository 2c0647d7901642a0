//! `/ping` and `/eval`: the latency report and the script result text.

use vstd::prelude::*;
use crate::embeds::{self, figure_space, success_view};
use crate::emojis::{Emoji, emoji_markup};
use crate::helper::{Message, MessageView, add_embed, empty_message, set_ephemeral};
use crate::text::{all_digits, digits_value, lemma_nat_text_is_digits, nat_text, u128_text};

verus! {

/// The latency shown by `/ping`: milliseconds, or `N/A` when the shard has
/// not measured one yet.
pub open spec fn latency_text(latency_ms: Option<u128>) -> Seq<char> {
    match latency_ms {
        Some(ms) => nat_text(ms as nat) + "ms"@,
        None => "N/A"@,
    }
}

/// The answer of `/ping`.
pub open spec fn ping_message(latency_ms: Option<u128>) -> MessageView {
    set_ephemeral(
        add_embed(empty_message(), success_view("Pong!"@, "Gateway latency: `"@ + latency_text(latency_ms) + "`"@)),
        true,
    )
}

/// The answer of `/ping`, given the gateway latency of the shard in milliseconds.
pub fn ping(latency_ms: Option<u128>) -> (m: Message)
    ensures
        m@ == ping_message(latency_ms),
{
    let mut d = "Gateway latency: `".to_owned();
    match latency_ms {
        Some(ms) => {
            let t = u128_text(ms);
            d.append(t.as_str());
            d.append("ms");
        },
        None => d.append("N/A"),
    }
    d.append("`");
    assert(d@ =~= "Gateway latency: `"@ + latency_text(latency_ms) + "`"@);
    Message::new().embed(embeds::success("Pong!", d.as_str())).ephemeral(true)
}

/// The text `/eval` posts: the value of the script, or its error.
pub open spec fn eval_text(outcome: Result<Seq<char>, Seq<char>>) -> Seq<char> {
    match outcome {
        Ok(value) => "Result: "@ + value,
        Err(error) => "Error: "@ + error,
    }
}

/// The text `/eval` posts, given the script's value (as `Debug` prints it) or
/// its error (as `Display` prints it).
pub fn eval(outcome: Result<String, String>) -> (s: String)
    ensures
        s@ == eval_text(match outcome { Ok(v) => Ok(v@), Err(e) => Err(e@) }),
{
    match outcome {
        Ok(value) => {
            let mut s = "Result: ".to_owned();
            s.append(value.as_str());
            s
        },
        Err(error) => {
            let mut s = "Error: ".to_owned();
            s.append(error.as_str());
            s
        },
    }
}

/// `/ping` reports the latency it is given: one ephemeral "Pong!" success
/// embed whose description names the latency as the decimal digits of that
/// very number of milliseconds (no leading zero) followed by `ms`, or `N/A`
/// when there is none.
pub proof fn lemma_ping_reports_the_latency(latency_ms: Option<u128>)
    ensures
        ping_message(latency_ms).ephemeral,
        ping_message(latency_ms).embeds.len() == 1,
        ping_message(latency_ms).embeds[0].title == "Pong!"@,
        latency_ms is None ==> ping_message(latency_ms).embeds[0].description
            == emoji_markup(Emoji::Check) + figure_space() + "Gateway latency: `"@ + "N/A"@ + "`"@,
        latency_ms matches Some(ms) ==> exists|d: Seq<char>| {
            &&& d.len() > 0
            &&& all_digits(d)
            &&& #[trigger] digits_value(d) == ms
            &&& (d[0] == '0' ==> d.len() == 1)
            &&& latency_text(latency_ms) == d + "ms"@
            &&& ping_message(latency_ms).embeds[0].description
                == emoji_markup(Emoji::Check) + figure_space() + "Gateway latency: `"@ + d + "ms"@ + "`"@
        },
{
    if let Some(ms) = latency_ms {
        let d = nat_text(ms as nat);
        lemma_nat_text_is_digits(ms as nat);
        assert(ping_message(latency_ms).embeds[0].description
            =~= emoji_markup(Emoji::Check) + figure_space() + "Gateway latency: `"@ + d + "ms"@ + "`"@);
        assert(digits_value(d) == ms);
    } else {
        assert(ping_message(latency_ms).embeds[0].description
            =~= emoji_markup(Emoji::Check) + figure_space() + "Gateway latency: `"@ + "N/A"@ + "`"@);
    }
}

} // verus!
