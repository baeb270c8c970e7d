//! The broadcaster: turns an inbound frame into a display envelope and queues
//! it on the outbound handle of every recipient.
use crate::channel::{Outbox, Push};
use crate::registry::{is_recipient, target_keys, Registry, RegistryMap, Target};
use vstd::prelude::*;

verus! {

/// The string held under `field` in the JSON object written in `document`,
/// if `document` is a JSON object with such a member whose value is a
/// string.
pub uninterp spec fn json_text_field(document: Seq<char>, field: Seq<char>) -> Option<Seq<char>>;

/// Relies on `serde_json::from_str` into a `serde_json::Value`, then on
/// `Value::get` and `Value::as_str`: the string value of member `field` of the
/// object that `document` holds, or `None` when `document` is not JSON, not an
/// object, lacks the member, or holds another kind of value there. The result
/// depends on the two texts alone.
#[verifier::external_body]
fn read_text_field(document: &str, field: &str) -> (r: Option<String>)
    ensures
        match r {
            Some(s) => json_text_field(document@, field@) == Some(s@),
            None => json_text_field(document@, field@) is None,
        },
{
    let value = match serde_json::from_str::<serde_json::Value>(document) {
        Ok(v) => v,
        Err(_) => return None,
    };
    match value.get(field) {
        Some(member) => member.as_str().map(str::to_string),
        None => None,
    }
}

/// The member of an inbound frame that holds the message text.
pub const MESSAGE_FIELD: &'static str = "message";

/// The message text that an inbound text frame carries, if it is well formed.
pub open spec fn inbound_text(frame: Seq<char>) -> Option<Seq<char>> {
    json_text_field(frame, MESSAGE_FIELD@)
}

/// The outbound wire text for `text` sent by `name`: an HTML fragment that a
/// client appends to its chat log.
pub open spec fn envelope_text(name: Seq<char>, text: Seq<char>) -> Seq<char> {
    "<div id='recvchat' hx-swap-oob='beforeend:#log'><p id='username'>"@ + name + "</p><p>"@ + text
        + "</p></div>"@
}

/// Parses an inbound text frame of the form `{"message": "<string>"}` and
/// returns the message text, or `None` for a malformed frame.
pub fn decode_inbound(frame: &str) -> (r: Option<String>)
    ensures
        match r {
            Some(s) => inbound_text(frame@) == Some(s@),
            None => inbound_text(frame@) is None,
        },
{
    read_text_field(frame, MESSAGE_FIELD)
}

/// Renders the display envelope of `text` sent by `name`.
pub fn render_envelope(name: &str, text: &str) -> (r: String)
    ensures
        r@ == envelope_text(name@, text@),
{
    let mut out = String::from_str("<div id='recvchat' hx-swap-oob='beforeend:#log'><p id='username'>");
    out.append(name);
    out.append("</p><p>");
    out.append(text);
    out.append("</p></div>");
    out
}

/// The envelope owed for a decoded inbound message: none for a malformed
/// frame, else the rendered envelope of its text.
pub fn envelope_for(name: &str, decoded: Option<String>) -> (r: Option<String>)
    ensures
        match decoded {
            Some(t) => r matches Some(e) && e@ == envelope_text(name@, t@),
            None => r is None,
        },
{
    match decoded {
        Some(t) => Some(render_envelope(name, t.as_str())),
        None => None,
    }
}

/// The envelope owed for an inbound text frame from the user shown as `name`.
pub fn inbound_envelope(name: &str, frame: &str) -> (r: Option<String>)
    ensures
        match inbound_text(frame@) {
            Some(t) => r matches Some(e) && e@ == envelope_text(name@, t),
            None => r is None,
        },
{
    envelope_for(name, decode_inbound(frame))
}

/// The outcome of queuing one envelope on one recipient's handle.
pub struct Delivery {
    pub recipient: String,
    /// `false` when the recipient's pump was already gone: the frame was
    /// dropped, which is expected when a connection closes mid-broadcast.
    pub accepted: bool,
}

/// The recipients of a list of deliveries, in order.
pub open spec fn delivered_keys(ds: Seq<Delivery>) -> Seq<Seq<char>> {
    ds.map_values(|d: Delivery| d.recipient@)
}

/// The pushes owed to a list of targets: one of `frame` on each target's
/// handle, in order.
pub open spec fn pushes_to_targets(ts: Seq<Target>, frame: Seq<char>) -> Seq<Push> {
    ts.map_values(|t: Target| (t.handle, frame))
}

/// The pushes that a list of deliveries stands for: one of `frame` on the
/// handle that `m` holds for each recipient, in order.
pub open spec fn pushes_for(ds: Seq<Delivery>, m: RegistryMap, frame: Seq<char>) -> Seq<Push> {
    ds.map_values(|d: Delivery| (m[d.recipient@].sender.unwrap(), frame))
}

/// Queues one copy of `envelope` on each target's handle, in order, and
/// reports each attempt. A failed attempt is recorded and skipped; the
/// other targets are still served. The handle copies are released when
/// this returns.
pub fn deliver(targets: Vec<Target>, envelope: &String, outbox: &mut Outbox) -> (r: Vec<Delivery>)
    ensures
        delivered_keys(r@) == target_keys(targets@),
        final(outbox)@ == old(outbox)@ + pushes_to_targets(targets@, envelope@),
{
    let mut out: Vec<Delivery> = Vec::new();
    let mut i: usize = 0;
    while i < targets.len()
        invariant
            i <= targets@.len(),
            out@.len() == i,
            delivered_keys(out@) == target_keys(targets@).take(i as int),
            outbox@ == old(outbox)@ + pushes_to_targets(targets@, envelope@).take(i as int),
        decreases targets@.len() - i,
    {
        let accepted = outbox.push(&targets[i].handle, envelope.clone());
        let ghost prev = out@;
        out.push(Delivery { recipient: targets[i].key.clone(), accepted });
        assert forall|j: int| 0 <= j < i implies #[trigger] delivered_keys(out@)[j] == delivered_keys(prev)[j] by {
            assert(out@[j] == prev[j]);
        }
        assert(delivered_keys(out@)[i as int] == target_keys(targets@)[i as int]);
        assert(delivered_keys(out@) =~= target_keys(targets@).take(i + 1));
        assert(outbox@ =~= old(outbox)@ + pushes_to_targets(targets@, envelope@).take(i + 1));
        i = i + 1;
    }
    assert(target_keys(targets@).take(i as int) =~= target_keys(targets@));
    assert(pushes_to_targets(targets@, envelope@).take(i as int) =~= pushes_to_targets(targets@, envelope@));
    out
}

/// How many of the deliveries went to `k`.
pub open spec fn times_reached(ds: Seq<Delivery>, k: Seq<char>) -> nat {
    delivered_keys(ds).to_multiset().count(k)
}

/// A list without repeats that holds exactly the members of a predicate
/// holds each member once and nothing else.
proof fn lemma_once_each(keys: Seq<Seq<char>>, m: RegistryMap, sender: Seq<char>, echo_to_sender: bool)
    requires
        keys.no_duplicates(),
        forall|k: Seq<char>| keys.contains(k) <==> is_recipient(m, sender, echo_to_sender, k),
    ensures
        forall|k: Seq<char>|
            #[trigger] keys.to_multiset().count(k) == (if is_recipient(m, sender, echo_to_sender, k) {
                1nat
            } else {
                0nat
            }),
{
    keys.lemma_multiset_has_no_duplicates();
    assert forall|k: Seq<char>|
        #[trigger] keys.to_multiset().count(k) == (if is_recipient(m, sender, echo_to_sender, k) {
            1nat
        } else {
            0nat
        }) by {
        keys.to_multiset_ensures();
    }
}

/// Fans `envelope` out from `sender` to every connected entry of `registry`
/// (the sender's own only when `echo_to_sender` holds): each recipient's
/// handle gets exactly one push of the envelope, and no other push is made.
pub fn broadcast(
    registry: &Registry,
    sender: &String,
    envelope: &String,
    echo_to_sender: bool,
    outbox: &mut Outbox,
) -> (r: Vec<Delivery>)
    requires
        registry.wf(),
    ensures
        final(outbox)@ == old(outbox)@ + pushes_for(r@, registry@, envelope@),
        delivered_keys(r@).no_duplicates(),
        forall|k: Seq<char>|
            #[trigger] times_reached(r@, k) == (if is_recipient(registry@, sender@, echo_to_sender, k) {
                1nat
            } else {
                0nat
            }),
{
    let targets = registry.fan_out_targets(sender, echo_to_sender);
    let ghost ts = targets@;
    let r = deliver(targets, envelope, outbox);
    proof {
        lemma_once_each(delivered_keys(r@), registry@, sender@, echo_to_sender);
        assert forall|i: int| 0 <= i < r@.len() implies #[trigger] pushes_for(r@, registry@, envelope@)[i]
            == pushes_to_targets(ts, envelope@)[i] by {
            assert(delivered_keys(r@).len() == r@.len());
            assert(target_keys(ts).len() == ts.len());
            assert(delivered_keys(r@)[i] == target_keys(ts)[i]);
            assert(delivered_keys(r@)[i] == r@[i].recipient@);
            assert(target_keys(ts)[i] == ts[i].key@);
            assert(registry@.contains_key(ts[i].key@));
            assert(registry@[ts[i].key@].sender == Some(ts[i].handle));
        }
        assert(pushes_for(r@, registry@, envelope@) =~= pushes_to_targets(ts, envelope@));
    }
    r
}

} // verus!
