//! The message-processing step of the dispatcher loop.
//!
//! For each notification the loop pulls from the session's stream, one
//! call of [`handle_notification`] decides everything: a stream error ends
//! the loop, an inbound publication is decoded as text and forwarded to
//! every switch in the registry, and any other event is skipped.  A
//! payload that is not valid text is dropped whole: no switch changes and
//! no command is emitted, and the loop goes on.

use vstd::prelude::*;

use vstd::utf8::decode_utf8;
use vstd::utf8::valid_utf8;

use crate::session::Notification;
use crate::switch::Command;
use crate::switch::CommandModel;
use crate::switch::Switch;
use crate::switch::SwitchModel;
use crate::switch::spec_process;

verus! {

/// The models of a sequence of switches.
pub open spec fn switch_views(switches: Seq<Switch>) -> Seq<SwitchModel> {
    switches.map_values(|s: Switch| s@)
}

/// The models of a sequence of commands.
pub open spec fn command_views(cmds: Seq<Command>) -> Seq<CommandModel> {
    cmds.map_values(|c: Command| c@)
}

/// The commands a registry emits for one decoded message: each switch's
/// command under [`spec_process`], in registry order, silent switches
/// skipped.
pub open spec fn spec_emitted(
    pre: Seq<SwitchModel>,
    topic: Seq<char>,
    retain: bool,
    text: Seq<char>,
) -> Seq<CommandModel>
    decreases pre.len(),
{
    if pre.len() == 0 {
        Seq::empty()
    } else {
        let rest = spec_emitted(pre.drop_last(), topic, retain, text);
        match spec_process(pre.last(), topic, retain, text).1 {
            Some(c) => rest.push(c),
            None => rest,
        }
    }
}

/// Relies on `String::from_utf8` from std: it returns `Ok` exactly when
/// the bytes are valid UTF-8, and then the string it returns is their
/// decoding.  The error value is discarded here.
#[verifier::external_body]
fn decode_text(payload: &Vec<u8>) -> (r: Option<String>)
    ensures
        r is Some <==> valid_utf8(payload@),
        r matches Some(s) ==> s@ == decode_utf8(payload@),
{
    String::from_utf8(payload.clone()).ok()
}

/// Forwards one inbound publication to every switch in the registry and
/// collects the commands to publish.  A payload that is not valid text
/// leaves every switch unchanged and emits nothing.
pub fn dispatch(switches: &mut Vec<Switch>, topic: &String, retain: bool, payload: &Vec<u8>) -> (
    cmds: Vec<Command>)
    ensures
        final(switches)@.len() == old(switches)@.len(),
        valid_utf8(payload@) ==> forall|i: int|
            0 <= i < old(switches)@.len() ==> final(switches)@[i]@ == spec_process(
                old(switches)@[i]@,
                topic@,
                retain,
                decode_utf8(payload@),
            ).0,
        valid_utf8(payload@) ==> command_views(cmds@) == spec_emitted(
            switch_views(old(switches)@),
            topic@,
            retain,
            decode_utf8(payload@),
        ),
        !valid_utf8(payload@) ==> final(switches)@ == old(switches)@ && cmds@ == Seq::<
            Command,
        >::empty(),
{
    let mut cmds: Vec<Command> = Vec::new();
    let decoded = decode_text(payload);
    match decoded {
        None => cmds,
        Some(text) => {
            let ghost pre: Seq<Switch> = switches@;
            let n = switches.len();
            let mut i: usize = 0;
            while i < n
                invariant
                    i <= n,
                    n == pre.len(),
                    switches@.len() == pre.len(),
                    text@ == decode_utf8(payload@),
                    forall|j: int| i <= j < pre.len() ==> switches@[j] == pre[j],
                    forall|j: int|
                        0 <= j < i ==> switches@[j]@ == spec_process(
                            pre[j]@,
                            topic@,
                            retain,
                            text@,
                        ).0,
                    command_views(cmds@) == spec_emitted(
                        switch_views(pre.take(i as int)),
                        topic@,
                        retain,
                        text@,
                    ),
                decreases n - i,
            {
                let emitted = switches[i].process(topic, retain, &text);
                proof {
                    assert(switch_views(pre.take(i + 1)).drop_last() =~= switch_views(
                        pre.take(i as int),
                    ));
                    assert(switch_views(pre.take(i + 1)).last() == pre[i as int]@);
                }
                match emitted {
                    Some(c) => {
                        cmds.push(c);
                        proof {
                            assert(command_views(cmds@).drop_last() =~= command_views(
                                cmds@.drop_last(),
                            ));
                            assert(command_views(cmds@) =~= spec_emitted(
                                switch_views(pre.take(i + 1)),
                                topic@,
                                retain,
                                text@,
                            ));
                        }
                    },
                    None => {
                        proof {
                            assert(command_views(cmds@) =~= spec_emitted(
                                switch_views(pre.take(i + 1)),
                                topic@,
                                retain,
                                text@,
                            ));
                        }
                    },
                }
                i = i + 1;
            }
            proof {
                assert(pre.take(n as int) =~= pre);
            }
            cmds
        },
    }
}

/// What the dispatcher loop does after one notification.
pub enum DispatchOutcome {
    /// Keep looping; publish these commands first (possibly none).
    Continue(Vec<Command>),
    /// The stream yielded an error: the loop is over.
    Exit,
}

/// One full step of the dispatcher loop: decides from one notification
/// whether the loop continues, and forwards an inbound publication to the
/// whole registry.  Only a publication can change a switch or emit
/// commands.
pub fn handle_notification(switches: &mut Vec<Switch>, n: &Notification) -> (r: DispatchOutcome)
    ensures
        r is Exit <==> n is StreamError,
        final(switches)@.len() == old(switches)@.len(),
        !(n is Publish) ==> final(switches)@ == old(switches)@,
        !(n is Publish) && r is Continue ==> r->0@ == Seq::<Command>::empty(),
        n is Publish && valid_utf8(n->0.payload@) ==> forall|i: int|
            0 <= i < old(switches)@.len() ==> final(switches)@[i]@ == spec_process(
                old(switches)@[i]@,
                n->0.topic@,
                n->0.retain,
                decode_utf8(n->0.payload@),
            ).0,
        n is Publish && valid_utf8(n->0.payload@) ==> r is Continue && command_views(r->0@)
            == spec_emitted(
            switch_views(old(switches)@),
            n->0.topic@,
            n->0.retain,
            decode_utf8(n->0.payload@),
        ),
        n is Publish && !valid_utf8(n->0.payload@) ==> final(switches)@ == old(switches)@ && r
            is Continue && r->0@ == Seq::<Command>::empty(),
{
    match n {
        Notification::StreamError => DispatchOutcome::Exit,
        Notification::Publish(m) => DispatchOutcome::Continue(
            dispatch(switches, &m.topic, m.retain, &m.payload),
        ),
        Notification::Outgoing => DispatchOutcome::Continue(Vec::new()),
        Notification::OtherIncoming => DispatchOutcome::Continue(Vec::new()),
    }
}

} // verus!
