//! Properties of the relay that relate its operations, stated over the
//! models that the operations' contracts use.
use crate::account::{Status, UserState};
use crate::broadcast::{delivered_keys, envelope_text, inbound_text, pushes_for, times_reached, Delivery};
use crate::registry::{entries_wf, is_connected_in, is_recipient, RegistryMap};
use crate::session::{after_close, may_attach, owed_envelope, Frame, Phase};
use tokio::sync::mpsc::UnboundedSender;
use vstd::prelude::*;

verus! {

/// A valid message from an active session is owed to every other connected
/// user, as the envelope of the sender's display name and the message text.
/// With `Session::handle_frame` this means each such user is reached exactly
/// once.
pub proof fn law_connected_peer_is_reached(
    m: RegistryMap,
    sender: Seq<char>,
    name: Seq<char>,
    frame: Frame,
    echo_to_sender: bool,
    k: Seq<char>,
)
    requires
        frame matches Frame::Text(t) && inbound_text(t@) is Some,
        is_connected_in(m, k),
        k != sender,
    ensures
        frame matches Frame::Text(t) && owed_envelope(Phase::Active, name, frame) == Some(
            envelope_text(name, inbound_text(t@).unwrap()),
        ),
        is_recipient(m, sender, echo_to_sender, k),
{
}

/// The sender is reached by its own message exactly when echo is on.
pub proof fn law_sender_echo(m: RegistryMap, sender: Seq<char>, echo_to_sender: bool)
    requires
        is_connected_in(m, sender),
    ensures
        is_recipient(m, sender, echo_to_sender, sender) == echo_to_sender,
{
}

/// A key without a connected entry is never a recipient.
pub proof fn law_unconnected_key_is_never_reached(
    m: RegistryMap,
    sender: Seq<char>,
    echo_to_sender: bool,
    k: Seq<char>,
)
    requires
        !is_connected_in(m, k),
    ensures
        !is_recipient(m, sender, echo_to_sender, k),
{
}

/// After a session for `key` closes, no later broadcast is owed to `key`,
/// the registry keeps no handle for it (so its pump's channel can close),
/// and every other key's entry is as it was.
pub proof fn law_closed_user_is_not_reached(
    m: RegistryMap,
    key: Seq<char>,
    remove_on_close: bool,
    sender: Seq<char>,
    echo_to_sender: bool,
)
    ensures
        !is_recipient(after_close(m, key, remove_on_close), sender, echo_to_sender, key),
        after_close(m, key, remove_on_close).contains_key(key) ==> after_close(
            m,
            key,
            remove_on_close,
        )[key].sender is None,
        forall|k: Seq<char>|
            k != key ==> (#[trigger] after_close(m, key, remove_on_close).contains_key(k)
                == m.contains_key(k) && (m.contains_key(k) ==> after_close(
                m,
                key,
                remove_on_close,
            )[k] == m[k])),
{
}

/// Of two attach attempts for one key, once the first has succeeded the
/// second is refused, and the first attempt's entry stays whole.
pub proof fn law_second_attach_is_refused(m: RegistryMap, key: Seq<char>, first: UnboundedSender<String>)
    ensures
        ({
            let after_first = m.insert(key, UserState { status: Status::Connected, sender: Some(first) });
            &&& !may_attach(after_first, key)
            &&& after_first[key].sender == Some(first)
        }),
{
}

/// A malformed text frame is owed no envelope, in any phase.
pub proof fn law_malformed_frame_is_dropped(phase: Phase, name: Seq<char>, frame: Frame)
    requires
        frame matches Frame::Text(t) && inbound_text(t@) is None,
    ensures
        owed_envelope(phase, name, frame) is None,
{
}

/// The envelope shows the sender's display name and the message text
/// unchanged, each at a fixed place after the markup that precedes it.
pub proof fn law_envelope_holds_name_and_text(name: Seq<char>, text: Seq<char>)
    ensures
        ({
            let e = envelope_text(name, text);
            let lead = "<div id='recvchat' hx-swap-oob='beforeend:#log'><p id='username'>"@.len() as int;
            let gap = "</p><p>"@.len() as int;
            &&& e.subrange(lead, lead + name.len()) == name
            &&& e.subrange(lead + name.len() + gap, lead + name.len() + gap + text.len()) == text
        }),
{
    let e = envelope_text(name, text);
    let lead = "<div id='recvchat' hx-swap-oob='beforeend:#log'><p id='username'>"@.len() as int;
    let gap = "</p><p>"@.len() as int;
    assert(e.subrange(lead, lead + name.len()) =~= name);
    assert(e.subrange(lead + name.len() + gap, lead + name.len() + gap + text.len()) =~= text);
}

/// Of the pushes a broadcast makes (as `broadcast` and
/// `Session::handle_frame` state them), each carries the frame and lands on
/// the live handle of a connected recipient: never on a key without a
/// connected entry, so never on a handle that a closed session left behind.
pub proof fn law_every_push_lands_on_a_recipient(
    ds: Seq<Delivery>,
    m: RegistryMap,
    sender: Seq<char>,
    echo_to_sender: bool,
    frame: Seq<char>,
)
    requires
        entries_wf(m),
        forall|k: Seq<char>|
            #[trigger] times_reached(ds, k) == (if is_recipient(m, sender, echo_to_sender, k) {
                1nat
            } else {
                0nat
            }),
    ensures
        forall|i: int|
            0 <= i < ds.len() ==> {
                &&& is_recipient(m, sender, echo_to_sender, #[trigger] ds[i].recipient@)
                &&& m[ds[i].recipient@].sender is Some
                &&& pushes_for(ds, m, frame)[i] == (m[ds[i].recipient@].sender.unwrap(), frame)
            },
{
    assert forall|i: int| 0 <= i < ds.len() implies {
        &&& is_recipient(m, sender, echo_to_sender, #[trigger] ds[i].recipient@)
        &&& m[ds[i].recipient@].sender is Some
        &&& pushes_for(ds, m, frame)[i] == (m[ds[i].recipient@].sender.unwrap(), frame)
    } by {
        let k = ds[i].recipient@;
        let keys = delivered_keys(ds);
        assert(keys.len() == ds.len());
        assert(keys[i] == k);
        keys.to_multiset_ensures();
        assert(keys.contains(k));
        assert(times_reached(ds, k) > 0);
        assert(m.contains_key(k));
    }
}

} // verus!
