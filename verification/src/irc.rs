//! The IRC protocol engine: line dissection and the session state machine.
//!
//! The engine owns the registration flag and the channel-join status for one
//! connection attempt. It consumes inbound commands — protocol lines,
//! periodic control ticks, the registration request, and the shutdown
//! request — and decides which protocol lines go out, whether a disconnect
//! is wanted, whether the next control tick must be armed, and when its
//! loop stops. The surrounding process owns the queues, the timers and the
//! connection, and performs what is decided here.

use vstd::prelude::*;

use crate::bytes::{bytes_eq, concat_bytes, copy_bytes, split_byte, split_bytes, views_of};

verus! {

/// The engine's inbound commands: a protocol line relayed from the
/// transport, the periodic control tick, the supervisor's request to send
/// the registration lines, and the request to stop.
pub enum IrcMessage {
    Message(Vec<u8>),
    Control,
    Register,
    Shutdown,
}

/// Where the channel join stands: not joined, join requested, or confirmed.
#[derive(Clone, Copy, PartialEq, Eq, Structural, Debug)]
pub enum ChannelStatus {
    NotJoined,
    Attempting,
    Joined,
}

/// What one inbound command decided: protocol lines to write out, whether a
/// graceful disconnect is requested, whether the next control tick must be
/// armed, and whether the engine's loop stops.
pub struct IrcStep {
    pub outputs: Vec<Vec<u8>>,
    pub want_disconnect: bool,
    pub reschedule_control: bool,
    pub stop: bool,
}

/// The fixed client identity.
pub open spec fn me() -> Seq<u8> {
    seq![112u8, 114u8, 111u8, 99u8, 121u8, 111u8, 110u8]
}

/// The server's keepalive command word.
pub open spec fn ping_cmd() -> Seq<u8> {
    seq![80u8, 73u8, 78u8, 71u8]
}

/// The keepalive reply followed by one space.
pub open spec fn pong_prefix() -> Seq<u8> {
    seq![80u8, 79u8, 78u8, 71u8, 32u8]
}

/// The numeric reply acknowledging registration.
pub open spec fn welcome_cmd() -> Seq<u8> {
    seq![48u8, 48u8, 49u8]
}

/// The channel-join confirmation command word.
pub open spec fn join_cmd() -> Seq<u8> {
    seq![74u8, 79u8, 73u8, 78u8]
}

/// The kick command word.
pub open spec fn kick_cmd() -> Seq<u8> {
    seq![75u8, 73u8, 67u8, 75u8]
}

/// The channel-message command word.
pub open spec fn privmsg_cmd() -> Seq<u8> {
    seq![80u8, 82u8, 73u8, 86u8, 77u8, 83u8, 71u8]
}

/// The channel-message token that requests a graceful quit.
pub open spec fn quit_trigger() -> Seq<u8> {
    seq![58u8, 112u8, 113u8, 117u8, 105u8, 116u8]
}

/// The join request command followed by a space and a colon.
pub open spec fn join_prefix() -> Seq<u8> {
    seq![74u8, 79u8, 73u8, 78u8, 32u8, 58u8]
}

/// The first registration line: the nickname announcement.
pub open spec fn nick_line() -> Seq<u8> {
    seq![78u8, 73u8, 67u8, 75u8, 32u8, 112u8, 114u8, 111u8, 99u8, 121u8, 111u8, 110u8]
}

/// The second registration line: the user announcement.
pub open spec fn user_line() -> Seq<u8> {
    seq![
        85u8, 83u8, 69u8, 82u8, 32u8, 112u8, 114u8, 111u8, 99u8, 121u8, 111u8, 110u8, 32u8,
        64u8, 32u8, 112u8, 114u8, 111u8, 99u8, 121u8, 111u8, 110u8, 32u8, 58u8, 112u8, 114u8,
        111u8, 99u8, 121u8, 111u8, 110u8,
    ]
}

/// The two lines that establish identity, in order.
pub open spec fn registration_lines() -> Seq<Seq<u8>> {
    seq![nick_line(), user_line()]
}

fn me_bytes() -> (v: Vec<u8>)
    ensures
        v@ == me(),
{
    let a: [u8; 7] = [112, 114, 111, 99, 121, 111, 110];
    let v = vstd::slice::slice_to_vec(a.as_slice());
    proof {
        assert(v@ =~= me());
    }
    v
}

fn ping_cmd_bytes() -> (v: Vec<u8>)
    ensures
        v@ == ping_cmd(),
{
    let a: [u8; 4] = [80, 73, 78, 71];
    let v = vstd::slice::slice_to_vec(a.as_slice());
    proof {
        assert(v@ =~= ping_cmd());
    }
    v
}

fn pong_prefix_bytes() -> (v: Vec<u8>)
    ensures
        v@ == pong_prefix(),
{
    let a: [u8; 5] = [80, 79, 78, 71, 32];
    let v = vstd::slice::slice_to_vec(a.as_slice());
    proof {
        assert(v@ =~= pong_prefix());
    }
    v
}

fn welcome_cmd_bytes() -> (v: Vec<u8>)
    ensures
        v@ == welcome_cmd(),
{
    let a: [u8; 3] = [48, 48, 49];
    let v = vstd::slice::slice_to_vec(a.as_slice());
    proof {
        assert(v@ =~= welcome_cmd());
    }
    v
}

fn join_cmd_bytes() -> (v: Vec<u8>)
    ensures
        v@ == join_cmd(),
{
    let a: [u8; 4] = [74, 79, 73, 78];
    let v = vstd::slice::slice_to_vec(a.as_slice());
    proof {
        assert(v@ =~= join_cmd());
    }
    v
}

fn kick_cmd_bytes() -> (v: Vec<u8>)
    ensures
        v@ == kick_cmd(),
{
    let a: [u8; 4] = [75, 73, 67, 75];
    let v = vstd::slice::slice_to_vec(a.as_slice());
    proof {
        assert(v@ =~= kick_cmd());
    }
    v
}

fn privmsg_cmd_bytes() -> (v: Vec<u8>)
    ensures
        v@ == privmsg_cmd(),
{
    let a: [u8; 7] = [80, 82, 73, 86, 77, 83, 71];
    let v = vstd::slice::slice_to_vec(a.as_slice());
    proof {
        assert(v@ =~= privmsg_cmd());
    }
    v
}

fn quit_trigger_bytes() -> (v: Vec<u8>)
    ensures
        v@ == quit_trigger(),
{
    let a: [u8; 6] = [58, 112, 113, 117, 105, 116];
    let v = vstd::slice::slice_to_vec(a.as_slice());
    proof {
        assert(v@ =~= quit_trigger());
    }
    v
}

fn join_prefix_bytes() -> (v: Vec<u8>)
    ensures
        v@ == join_prefix(),
{
    let a: [u8; 6] = [74, 79, 73, 78, 32, 58];
    let v = vstd::slice::slice_to_vec(a.as_slice());
    proof {
        assert(v@ =~= join_prefix());
    }
    v
}

fn nick_line_bytes() -> (v: Vec<u8>)
    ensures
        v@ == nick_line(),
{
    let a: [u8; 12] = [78, 73, 67, 75, 32, 112, 114, 111, 99, 121, 111, 110];
    let v = vstd::slice::slice_to_vec(a.as_slice());
    proof {
        assert(v@ =~= nick_line());
    }
    v
}

fn user_line_bytes() -> (v: Vec<u8>)
    ensures
        v@ == user_line(),
{
    let a: [u8; 31] = [
        85, 83, 69, 82, 32, 112, 114, 111, 99, 121, 111, 110, 32, 64, 32, 112, 114, 111, 99, 121,
        111, 110, 32, 58, 112, 114, 111, 99, 121, 111, 110,
    ];
    let v = vstd::slice::slice_to_vec(a.as_slice());
    proof {
        assert(v@ =~= user_line());
    }
    v
}

/// The command words interpreted after a source prefix are pairwise
/// distinct, so at most one dispatch rule applies to a line.
pub proof fn lemma_commands_distinct()
    ensures
        welcome_cmd() != join_cmd(),
        welcome_cmd() != kick_cmd(),
        welcome_cmd() != privmsg_cmd(),
        join_cmd() != kick_cmd(),
        join_cmd() != privmsg_cmd(),
        kick_cmd() != privmsg_cmd(),
{
    assert(welcome_cmd().len() == 3);
    assert(join_cmd().len() == 4);
    assert(kick_cmd().len() == 4);
    assert(privmsg_cmd().len() == 7);
    assert(join_cmd()[0] == 74u8);
    assert(kick_cmd()[0] == 75u8);
}

/// The sender's nickname derived from a line's first token: the token must
/// start with a colon, and what follows must split on the separator into
/// exactly two parts; the first part is the nickname. Anything else is an
/// anonymous sender.
pub open spec fn source_nick(tok: Seq<u8>) -> Option<Seq<u8>> {
    if tok.len() > 0 && tok[0] == 58 && split_byte(tok.drop_first(), 33).len() == 2 {
        Some(split_byte(tok.drop_first(), 33)[0])
    } else {
        None
    }
}

/// The views of an optional nickname.
pub open spec fn nick_view(n: Option<Vec<u8>>) -> Option<Seq<u8>> {
    match n {
        Some(v) => Some(v@),
        None => None,
    }
}

/// The sender of a prefixed protocol line: its nickname, when the prefix
/// carries one.
pub struct Source {
    pub nick: Option<Vec<u8>>,
}

impl Source {
    /// Derive the sender from a line's first token.
    pub fn new(token: &Vec<u8>) -> (r: Source)
        ensures
            nick_view(r.nick) == source_nick(token@),
    {
        if token.len() == 0 {
            return Source { nick: None };
        }
        if token[0] != 58 {
            return Source { nick: None };
        }
        let mut rest = copy_bytes(token);
        let _first: u8 = rest.remove(0);
        proof {
            assert(rest@ =~= token@.drop_first());
        }
        let parts = split_bytes(&rest, 33);
        proof {
            assert(views_of(parts@).len() == parts@.len());
        }
        if parts.len() == 2 {
            proof {
                assert(views_of(parts@)[0] == parts@[0]@);
            }
            let nick = copy_bytes(&parts[0]);
            Source { nick: Some(nick) }
        } else {
            Source { nick: None }
        }
    }

    /// Whether the sender is this client. An anonymous sender never is.
    pub fn is_me(&self) -> (r: bool)
        ensures
            r == (nick_view(self.nick) == Some(me())),
    {
        match &self.nick {
            None => false,
            Some(n) => {
                let m = me_bytes();
                bytes_eq(n, &m)
            },
        }
    }
}

/// A line's space-delimited tokens, empty tokens kept.
pub open spec fn line_tokens(line: Seq<u8>) -> Seq<Seq<u8>> {
    split_byte(line, 32)
}

/// The registration flag after one inbound line: the welcome reply sets it,
/// nothing clears it.
pub open spec fn line_next_registered(registered: bool, toks: Seq<Seq<u8>>) -> bool {
    if toks.len() < 2 {
        registered
    } else if toks[0] == ping_cmd() {
        registered
    } else if toks[1] == welcome_cmd() {
        true
    } else {
        registered
    }
}

/// The join status after one inbound line: a join confirmed for this client
/// marks the channel joined; a kick naming this client as its fourth token
/// resets it; everything else leaves it alone.
pub open spec fn line_next_status(status: ChannelStatus, toks: Seq<Seq<u8>>) -> ChannelStatus {
    if toks.len() < 2 {
        status
    } else if toks[0] == ping_cmd() {
        status
    } else if toks[1] == join_cmd() {
        if source_nick(toks[0]) == Some(me()) {
            ChannelStatus::Joined
        } else {
            status
        }
    } else if toks[1] == kick_cmd() {
        if toks.len() > 3 && toks[3] == me() {
            ChannelStatus::NotJoined
        } else {
            status
        }
    } else {
        status
    }
}

/// The protocol lines a single inbound line produces: exactly one keepalive
/// reply for a keepalive, nothing otherwise.
pub open spec fn line_outputs(toks: Seq<Seq<u8>>) -> Seq<Seq<u8>> {
    if toks.len() < 2 {
        Seq::empty()
    } else if toks[0] == ping_cmd() {
        seq![pong_prefix() + toks[1]]
    } else {
        Seq::empty()
    }
}

/// Whether an inbound line requests the graceful disconnect: a channel
/// message whose fourth token is exactly the trigger phrase.
pub open spec fn line_wants_disconnect(toks: Seq<Seq<u8>>) -> bool {
    toks.len() >= 2 && toks[0] != ping_cmd() && toks[1] == privmsg_cmd() && toks.len() > 3
        && toks[3] == quit_trigger()
}

/// The join status after a control tick: when registered and not joined,
/// a join is attempted; otherwise nothing changes.
pub open spec fn tick_next_status(registered: bool, status: ChannelStatus) -> ChannelStatus {
    if registered && status is NotJoined {
        ChannelStatus::Attempting
    } else {
        status
    }
}

/// The protocol lines a control tick produces: exactly one join request when
/// registered and not joined, nothing otherwise.
pub open spec fn tick_outputs(registered: bool, status: ChannelStatus, channel: Seq<u8>) -> Seq<
    Seq<u8>,
> {
    if registered && status is NotJoined {
        seq![join_prefix() + channel]
    } else {
        Seq::empty()
    }
}

/// The protocol engine's state for one connection attempt.
pub struct Irc {
    pub registered: bool,
    pub channel: Vec<u8>,
    pub channel_status: ChannelStatus,
}

impl Irc {
    /// A fresh engine for one connection attempt: unregistered, channel not
    /// joined.
    pub fn new(channel: Vec<u8>) -> (r: Irc)
        ensures
            !r.registered,
            r.channel_status is NotJoined,
            r.channel@ == channel@,
    {
        Irc { registered: false, channel, channel_status: ChannelStatus::NotJoined }
    }

    /// The two identity lines sent once per connection attempt, in order.
    pub fn send_registration(&self) -> (out: Vec<Vec<u8>>)
        ensures
            views_of(out@) == registration_lines(),
    {
        let mut out: Vec<Vec<u8>> = Vec::new();
        out.push(nick_line_bytes());
        out.push(user_line_bytes());
        proof {
            assert(views_of(out@) =~~= registration_lines());
        }
        out
    }

    /// Attempt the channel join: when not joined, mark the join as
    /// requested and produce the join line; otherwise do nothing.
    pub fn channel(&mut self) -> (out: Option<Vec<u8>>)
        ensures
            final(self).registered == old(self).registered,
            final(self).channel@ == old(self).channel@,
            old(self).channel_status is NotJoined ==> (final(self).channel_status is Attempting && (
            out matches Some(l) && l@ == join_prefix() + old(self).channel@)),
            !(old(self).channel_status is NotJoined) ==> (final(self).channel_status == old(
                self,
            ).channel_status && out is None),
    {
        if self.channel_status != ChannelStatus::NotJoined {
            return None;
        }
        self.channel_status = ChannelStatus::Attempting;
        let p = join_prefix_bytes();
        Some(concat_bytes(&p, &self.channel))
    }

    /// Dispatch one inbound protocol line: split it on single spaces, answer
    /// a keepalive, and apply the registration, join, kick and trigger rules.
    fn handle_line(&mut self, line: Vec<u8>) -> (r: IrcStep)
        ensures
            final(self).channel@ == old(self).channel@,
            ({
                let toks = line_tokens(line@);
                &&& final(self).registered == line_next_registered(old(self).registered, toks)
                &&& final(self).channel_status == line_next_status(
                    old(self).channel_status,
                    toks,
                )
                &&& views_of(r.outputs@) == line_outputs(toks)
                &&& r.want_disconnect == line_wants_disconnect(toks)
                &&& !r.reschedule_control
                &&& !r.stop
            }),
    {
        let toks = split_bytes(&line, 32);
        proof {
            assert(views_of(toks@).len() == toks@.len());
        }
        let mut outputs: Vec<Vec<u8>> = Vec::new();
        let mut want_disconnect = false;
        if toks.len() < 2 {
            proof {
                assert(views_of(outputs@) =~~= line_outputs(line_tokens(line@)));
            }
            return IrcStep { outputs, want_disconnect: false, reschedule_control: false, stop: false };
        }
        proof {
            assert(views_of(toks@)[0] == toks@[0]@);
            assert(views_of(toks@)[1] == toks@[1]@);
        }
        let ping = ping_cmd_bytes();
        if bytes_eq(&toks[0], &ping) {
            let pp = pong_prefix_bytes();
            let pong = concat_bytes(&pp, &toks[1]);
            outputs.push(pong);
            proof {
                assert(views_of(outputs@) =~~= line_outputs(line_tokens(line@)));
            }
            return IrcStep { outputs, want_disconnect: false, reschedule_control: false, stop: false };
        }
        proof {
            lemma_commands_distinct();
        }
        let source = Source::new(&toks[0]);
        let welcome = welcome_cmd_bytes();
        let join = join_cmd_bytes();
        let kick = kick_cmd_bytes();
        let privmsg = privmsg_cmd_bytes();
        let me_b = me_bytes();
        let pquit = quit_trigger_bytes();
        if bytes_eq(&toks[1], &welcome) {
            self.registered = true;
        } else if bytes_eq(&toks[1], &join) {
            if source.is_me() {
                self.channel_status = ChannelStatus::Joined;
            }
        } else if bytes_eq(&toks[1], &kick) {
            if toks.len() > 3 {
                proof {
                    assert(views_of(toks@)[3] == toks@[3]@);
                }
                if bytes_eq(&toks[3], &me_b) {
                    self.channel_status = ChannelStatus::NotJoined;
                }
            }
        } else if bytes_eq(&toks[1], &privmsg) {
            if toks.len() > 3 {
                proof {
                    assert(views_of(toks@)[3] == toks@[3]@);
                }
                if bytes_eq(&toks[3], &pquit) {
                    want_disconnect = true;
                }
            }
        }
        proof {
            assert(views_of(outputs@) =~~= line_outputs(line_tokens(line@)));
        }
        IrcStep { outputs, want_disconnect, reschedule_control: false, stop: false }
    }

    /// Dispatch one inbound command. A protocol line is interpreted by the
    /// dispatch rules; a control tick re-arms itself and attempts the
    /// channel join once registered; the registration request produces the
    /// two identity lines; the shutdown request stops the engine's loop.
    pub fn run(&mut self, msg: IrcMessage) -> (r: IrcStep)
        ensures
            final(self).channel@ == old(self).channel@,
            (msg matches IrcMessage::Message(line) ==> ({
                let toks = line_tokens(line@);
                &&& final(self).registered == line_next_registered(old(self).registered, toks)
                &&& final(self).channel_status == line_next_status(
                    old(self).channel_status,
                    toks,
                )
                &&& views_of(r.outputs@) == line_outputs(toks)
                &&& r.want_disconnect == line_wants_disconnect(toks)
                &&& !r.reschedule_control
                &&& !r.stop
            })),
            (msg is Control ==> ({
                &&& final(self).registered == old(self).registered
                &&& final(self).channel_status == tick_next_status(
                    old(self).registered,
                    old(self).channel_status,
                )
                &&& views_of(r.outputs@) == tick_outputs(
                    old(self).registered,
                    old(self).channel_status,
                    old(self).channel@,
                )
                &&& !r.want_disconnect
                &&& r.reschedule_control
                &&& !r.stop
            })),
            (msg is Register ==> ({
                &&& final(self).registered == old(self).registered
                &&& final(self).channel_status == old(self).channel_status
                &&& views_of(r.outputs@) == registration_lines()
                &&& !r.want_disconnect
                &&& !r.reschedule_control
                &&& !r.stop
            })),
            (msg is Shutdown ==> ({
                &&& final(self).registered == old(self).registered
                &&& final(self).channel_status == old(self).channel_status
                &&& views_of(r.outputs@) == Seq::<Seq<u8>>::empty()
                &&& !r.want_disconnect
                &&& !r.reschedule_control
                &&& r.stop
            })),
    {
        match msg {
            IrcMessage::Message(line) => self.handle_line(line),
            IrcMessage::Control => {
                let mut outputs: Vec<Vec<u8>> = Vec::new();
                if self.registered {
                    let j = self.channel();
                    match j {
                        Some(l) => outputs.push(l),
                        None => {},
                    }
                }
                proof {
                    assert(views_of(outputs@) =~~= tick_outputs(
                        old(self).registered,
                        old(self).channel_status,
                        old(self).channel@,
                    ));
                }
                IrcStep { outputs, want_disconnect: false, reschedule_control: true, stop: false }
            },
            IrcMessage::Register => {
                let outputs = self.send_registration();
                IrcStep { outputs, want_disconnect: false, reschedule_control: false, stop: false }
            },
            IrcMessage::Shutdown => {
                let outputs: Vec<Vec<u8>> = Vec::new();
                proof {
                    assert(views_of(outputs@) =~~= Seq::<Seq<u8>>::empty());
                }
                IrcStep { outputs, want_disconnect: false, reschedule_control: false, stop: true }
            },
        }
    }
}

/// An inbound line with fewer than two space-delimited tokens is ignored:
/// no state change, no output, no disconnect request.
pub proof fn lemma_short_line_ignored(registered: bool, status: ChannelStatus, line: Seq<u8>)
    requires
        line_tokens(line).len() < 2,
    ensures
        line_next_registered(registered, line_tokens(line)) == registered,
        line_next_status(status, line_tokens(line)) == status,
        line_outputs(line_tokens(line)) == Seq::<Seq<u8>>::empty(),
        !line_wants_disconnect(line_tokens(line)),
{
}

/// A keepalive line produces exactly one reply — the keepalive answer
/// followed by the line's second token — and changes no session state.
pub proof fn lemma_ping_pong(registered: bool, status: ChannelStatus, toks: Seq<Seq<u8>>)
    requires
        toks.len() >= 2,
        toks[0] == ping_cmd(),
    ensures
        line_outputs(toks) == seq![pong_prefix() + toks[1]],
        line_next_registered(registered, toks) == registered,
        line_next_status(status, toks) == status,
        !line_wants_disconnect(toks),
{
}

/// A join confirmation whose sender is this client marks the channel
/// joined, from whatever status held before; a join by anyone else leaves
/// the status untouched. Neither produces output.
pub proof fn lemma_join_transitions(registered: bool, status: ChannelStatus, toks: Seq<Seq<u8>>)
    requires
        toks.len() >= 2,
        toks[0] != ping_cmd(),
        toks[1] == join_cmd(),
    ensures
        source_nick(toks[0]) == Some(me()) ==> line_next_status(status, toks) is Joined,
        source_nick(toks[0]) != Some(me()) ==> line_next_status(status, toks) == status,
        line_next_registered(registered, toks) == registered,
        line_outputs(toks) == Seq::<Seq<u8>>::empty(),
        !line_wants_disconnect(toks),
{
    lemma_commands_distinct();
}

/// A kick whose fourth token names this client resets the join status,
/// whatever it was; a kick naming anyone else — or too short to name a
/// target — leaves it untouched. Neither produces output.
pub proof fn lemma_kick_resets(registered: bool, status: ChannelStatus, toks: Seq<Seq<u8>>)
    requires
        toks.len() >= 2,
        toks[0] != ping_cmd(),
        toks[1] == kick_cmd(),
    ensures
        (toks.len() > 3 && toks[3] == me()) ==> line_next_status(status, toks) is NotJoined,
        !(toks.len() > 3 && toks[3] == me()) ==> line_next_status(status, toks) == status,
        line_next_registered(registered, toks) == registered,
        line_outputs(toks) == Seq::<Seq<u8>>::empty(),
        !line_wants_disconnect(toks),
{
    lemma_commands_distinct();
}

/// A control tick while registered and not joined produces exactly one join
/// request and marks the join as attempted; a tick while unregistered
/// produces nothing and changes nothing.
pub proof fn lemma_control_tick(registered: bool, status: ChannelStatus, channel: Seq<u8>)
    ensures
        (registered && status is NotJoined) ==> (tick_outputs(registered, status, channel)
            == seq![join_prefix() + channel] && tick_next_status(registered, status) is Attempting),
        !registered ==> (tick_outputs(registered, status, channel) == Seq::<Seq<u8>>::empty()
            && tick_next_status(registered, status) == status),
{
}

/// A channel message whose fourth token is exactly the trigger phrase
/// requests the disconnect — once, as the line's single intent — and
/// changes no session state.
pub proof fn lemma_quit_trigger(registered: bool, status: ChannelStatus, toks: Seq<Seq<u8>>)
    requires
        toks.len() >= 2,
        toks[0] != ping_cmd(),
        toks[1] == privmsg_cmd(),
        toks.len() > 3,
        toks[3] == quit_trigger(),
    ensures
        line_wants_disconnect(toks),
        line_outputs(toks) == Seq::<Seq<u8>>::empty(),
        line_next_registered(registered, toks) == registered,
        line_next_status(status, toks) == status,
{
    lemma_commands_distinct();
}

} // verus!
