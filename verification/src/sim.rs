//! The self-test: a simulated device sends a fetch envelope through the whole
//! pipeline to a live relay, and the page has to come back to it.

use crate::ql;
use crate::ql::{
    AccountUpdate, AccountUpdateView, DeviceStatus, DeviceStatusView, PassportMessage,
    PassportMessageView, QuantumLinkMessage, QuantumLinkMessageView,
};
use crate::relay;
use crate::router;
use crate::router::{Dechunked, RouteError, RouterView, StepView};
use crate::text;
use vstd::prelude::*;
use vstd::string::*;

verus! {

/// The envelope that the simulated device sends.
pub const SIM_FETCH: &'static str =
    "{\"type\":\"fetch\",\"id\":\"1\",\"url\":\"https://example.com/\"}";

/// The text that the fetched page has to hold.
pub const SIM_PAGE_TEXT: &'static str = "Example Domain";

/// How the reply says that the page was fetched.
pub const SIM_PAGE_STATUS: &'static str = "\"status\": 200";

/// The message that the simulated device sends.
pub open spec fn sim_message() -> PassportMessageView {
    PassportMessageView {
        message: QuantumLinkMessageView::AccountUpdate(
            AccountUpdateView {
                account_id: ql::WEB0_CHANNEL@,
                update: vstd::utf8::encode_utf8(SIM_FETCH@),
            },
        ),
        status: DeviceStatusView { version: "0.1.0"@, battery_level: 88 },
        protocol_version: Some(1),
    }
}

/// The message that the simulated device sends, the same as the browser would.
pub fn device_message() -> (r: PassportMessage)
    ensures
        r@ == sim_message(),
{
    PassportMessage {
        message: QuantumLinkMessage::AccountUpdate(
            AccountUpdate {
                account_id: ql::WEB0_CHANNEL.to_owned(),
                update: SIM_FETCH.as_bytes_vec(),
            },
        ),
        status: DeviceStatus { version: "0.1.0".to_owned(), battery_level: 88 },
        protocol_version: Some(1),
    }
}

/// The envelope that frames put together give: the latest complete one, unless
/// one of the frames was not a chunk.
pub open spec fn last_complete(frames: Seq<Dechunked>) -> Result<Option<Seq<u8>>, RouteError>
    decreases frames.len(),
{
    if frames.len() == 0 {
        Ok(None)
    } else {
        match last_complete(frames.drop_last()) {
            Ok(earlier) => match frames.last() {
                Dechunked::BadChunk => Err(RouteError::BadChunk),
                Dechunked::Incomplete => Ok(earlier),
                Dechunked::Complete(envelope) => Ok(Some(envelope@)),
            },
            Err(e) => Err(e),
        }
    }
}

/// The envelope that the frames of a reply give, from what came of each of
/// them.
pub fn collect_reply(frames: &Vec<Dechunked>) -> (r: Result<Option<Vec<u8>>, RouteError>)
    ensures
        last_complete(frames@) == (match r {
            Ok(Some(envelope)) => Ok::<Option<Seq<u8>>, RouteError>(Some(envelope@)),
            Ok(None) => Ok(None),
            Err(e) => Err(e),
        }),
{
    let mut complete: Option<Vec<u8>> = None;
    let mut i: usize = 0;
    while i < frames.len()
        invariant
            i <= frames.len(),
            last_complete(frames@.take(i as int)) == (match complete {
                Some(envelope) => Ok::<Option<Seq<u8>>, RouteError>(Some(envelope@)),
                None => Ok(None),
            }),
        decreases frames.len() - i,
    {
        assert(frames@.take(i + 1).drop_last() =~= frames@.take(i as int));
        match &frames[i] {
            Dechunked::BadChunk => {
                proof {
                    lemma_bad_chunk_stays(frames@, i + 1);
                }
                return Err(RouteError::BadChunk);
            },
            Dechunked::Incomplete => {},
            Dechunked::Complete(envelope) => {
                complete = Some(envelope.clone());
                assert(complete->0@ =~= envelope@);
            },
        }
        i = i + 1;
    }
    assert(frames@.take(i as int) =~= frames@);
    Ok(complete)
}

proof fn lemma_bad_chunk_stays(frames: Seq<Dechunked>, n: int)
    requires
        0 <= n <= frames.len(),
        last_complete(frames.take(n)) is Err,
    ensures
        last_complete(frames) == last_complete(frames.take(n)),
    decreases frames.len() - n,
{
    if n < frames.len() {
        assert(frames.take(n + 1).drop_last() =~= frames.take(n));
        lemma_bad_chunk_stays(frames, n + 1);
    } else {
        assert(frames.take(n) =~= frames);
    }
}

/// How the self-test ended.
#[derive(Clone, Copy, Debug, PartialEq, Eq, Structural)]
pub enum SimVerdict {
    /// The page came back to the device.
    GotPage,
    /// Something else than the page came back on its channel.
    WrongPage,
    /// Nothing came back on the channel of the device.
    NoPage,
}

/// Whether `update` is a reply with the page that was asked for.
pub open spec fn is_sim_page(update: Seq<u8>) -> bool {
    &&& text::occurs(update, vstd::utf8::encode_utf8(SIM_PAGE_TEXT@))
    &&& text::occurs(update, vstd::utf8::encode_utf8(SIM_PAGE_STATUS@))
}

/// How the self-test ended, where the device opened this message, or none.
pub open spec fn verdict(message: Option<QuantumLinkMessageView>) -> SimVerdict {
    match message {
        Some(QuantumLinkMessageView::AccountUpdate(update)) => if update.account_id
            != ql::WEB0_CHANNEL@ {
            SimVerdict::NoPage
        } else if is_sim_page(update.update) {
            SimVerdict::GotPage
        } else {
            SimVerdict::WrongPage
        },
        _ => SimVerdict::NoPage,
    }
}

/// The view of a message that the device opened.
pub open spec fn message_view(message: Option<QuantumLinkMessage>) -> Option<
    QuantumLinkMessageView,
> {
    match message {
        Some(m) => Some(m@),
        None => None,
    }
}

/// How the self-test ended, where the device opened this message, or none.
///
/// The reply is searched as bytes: an ASCII text stands in it wherever it stands
/// in the text that the bytes encode.
pub fn check_reply(message: Option<QuantumLinkMessage>) -> (r: SimVerdict)
    ensures
        r == verdict(message_view(message)),
{
    match message {
        Some(QuantumLinkMessage::AccountUpdate(update)) => {
            if !text::same(update.account_id.as_str(), ql::WEB0_CHANNEL) {
                SimVerdict::NoPage
            } else if text::contains_bytes(&update.update, &SIM_PAGE_TEXT.as_bytes_vec())
                && text::contains_bytes(&update.update, &SIM_PAGE_STATUS.as_bytes_vec()) {
                SimVerdict::GotPage
            } else {
                SimVerdict::WrongPage
            }
        },
        _ => SimVerdict::NoPage,
    }
}

/// The message of the simulated device is forwarded to the relay as it stands,
/// and the self-test succeeds just where the line that the relay sends back is
/// the page.
pub proof fn law_sim_succeeds_on_the_page(
    router: RouterView,
    sender: Seq<u8>,
    clock: Option<u64>,
    protocol_version: u32,
    line: Seq<u8>,
    later: Option<u64>,
)
    requires
        line.len() > 0,
    ensures
        router.route_step(sim_message().message, sender, clock, protocol_version) == (
        StepView::Exchange {
            relay_addr: router.relay_addr,
            timeout: router.relay_timeout,
            envelope: vstd::utf8::encode_utf8(SIM_FETCH@),
            reply_to: sender,
        }),
        router::reply_step(Ok(line), sender, later) matches StepView::Send(outgoing) && (verdict(
            Some(outgoing.message.message),
        ) == SimVerdict::GotPage <==> is_sim_page(relay::without_line_ends(line))),
{
}

/// The simulated device sends, on the browser's channel, a fetch of
/// `https://example.com/`.
pub proof fn law_sim_asks_for_the_page()
    ensures
        sim_message().message matches QuantumLinkMessageView::AccountUpdate(update)
            && update.account_id == "web-0"@ && update.update == vstd::utf8::encode_utf8(
            "{\"type\":\"fetch\",\"id\":\"1\",\"url\":\"https://example.com/\"}"@,
        ),
        sim_message().status.version == "0.1.0"@,
        sim_message().status.battery_level == 88,
        sim_message().protocol_version == Some(1u32),
{
}

/// The self-test succeeds just where what comes back on the browser's channel
/// holds the heading of the page and the status of a fetched one. It tells apart
/// whether something else came back on that channel, or nothing.
pub proof fn law_verdict_is_on_the_page(message: Option<QuantumLinkMessageView>)
    ensures
        verdict(message) == SimVerdict::NoPage <==> !(message matches Some(
            QuantumLinkMessageView::AccountUpdate(update),
        ) && update.account_id == "web-0"@),
        verdict(message) == SimVerdict::GotPage <==> (message matches Some(
            QuantumLinkMessageView::AccountUpdate(update),
        ) && update.account_id == "web-0"@ && text::occurs(
            update.update,
            vstd::utf8::encode_utf8("Example Domain"@),
        ) && text::occurs(update.update, vstd::utf8::encode_utf8("\"status\": 200"@))),
{
}

/// The message that the device opened is judged as it stands.
pub proof fn law_opened_message_is_judged_as_it_stands(message: QuantumLinkMessage)
    ensures
        message matches QuantumLinkMessage::AccountUpdate(update) ==> message_view(Some(message))
            == Some(
            QuantumLinkMessageView::AccountUpdate(
                AccountUpdateView { account_id: update.account_id@, update: update.update@ },
            ),
        ),
        !(message is AccountUpdate) ==> !(message_view(Some(message)) matches Some(seen)
            && seen is AccountUpdate),
        message_view(None) is None,
{
}

/// A reply is refused just where one of its frames was not a chunk. Else it is
/// the envelope that was completed last, and nothing where none was.
pub proof fn law_reply_is_the_last_envelope(frames: Seq<Dechunked>)
    ensures
        last_complete(frames) is Err <==> exists|i: int|
            0 <= i < frames.len() && #[trigger] frames[i] is BadChunk,
        last_complete(frames) matches Err(e) ==> e == RouteError::BadChunk,
        last_complete(frames) matches Ok(None) ==> forall|i: int|
            0 <= i < frames.len() ==> #[trigger] frames[i] is Incomplete,
        last_complete(frames) matches Ok(Some(envelope)) ==> exists|i: int|
            0 <= i < frames.len() && (#[trigger] frames[i] matches Dechunked::Complete(e) && e@
                == envelope) && forall|j: int|
                i < j < frames.len() ==> #[trigger] frames[j] is Incomplete,
    decreases frames.len(),
{
    if frames.len() > 0 {
        let rest = frames.drop_last();
        let n = rest.len() as int;
        law_reply_is_the_last_envelope(rest);
        assert(frames[n] == frames.last());
        assert(forall|i: int| 0 <= i < n ==> rest[i] == frames[i]);
        if last_complete(rest) is Err {
            let i = choose|i: int| 0 <= i < rest.len() && #[trigger] rest[i] is BadChunk;
            assert(frames[i] is BadChunk);
        } else if frames.last() is Incomplete {
            assert(last_complete(frames) == last_complete(rest));
            if let Ok(Some(envelope)) = last_complete(rest) {
                let i = choose|i: int|
                    0 <= i < rest.len() && (#[trigger] rest[i] matches Dechunked::Complete(e) && e@
                        == envelope) && forall|j: int|
                        i < j < rest.len() ==> #[trigger] rest[j] is Incomplete;
                assert(frames[i] is Complete);
                assert forall|j: int| i < j < frames.len() implies #[trigger] frames[
                    j] is Incomplete by {
                    if j < n {
                        assert(rest[j] is Incomplete);
                    }
                }
            }
        }
        assert forall|i: int| 0 <= i < frames.len() && #[trigger] frames[
            i] is BadChunk implies last_complete(frames) is Err by {
            if i < n {
                assert(rest[i] is BadChunk);
            }
        }
    }
}

} // verus!
