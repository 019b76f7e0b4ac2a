//! Chat: specialized tool kinds, system message colours, send targets, the
//! outgoing message queue, and reading the last received message.
use vstd::prelude::*;
use vstd::string::{StrSliceExecFns, StringExecFns, StringSliceAdditionalSpecFns};

use crate::memory::{bool_at, field_addr, field_address, follow_chain, i32_at, read_bool, read_i32, read_u64, u64_at, write_i32, ProcessMemory};
use crate::resources::player::chain_end;

verus! {

/// Specialized tools (mantles and boosters); `NoTool` is none.
#[derive(Debug, Clone, Copy, PartialEq, Eq, Hash, Structural)]
pub enum SpecializedToolType {
    NoTool,
    GhillieMantle,
    TemporalMantle,
    HealthBooster,
    RocksteadyMantle,
    ChallengerMantle,
    VitalityMantle,
    FireproofMantle,
    WaterproofMantle,
    IceproofMantle,
    ThunderproofMantle,
    DragonproofMantle,
    CleanserBooster,
    GliderMantle,
    EvasionMantle,
    ImpactMantle,
    ApothecaryMantle,
    ImmunityMantle,
    AffinityBooster,
    BanditMantle,
    AssassinsHood,
}

/// The number of a tool kind: -1 for none, then 0 upward in declaration order.
pub open spec fn tool_number(t: SpecializedToolType) -> i32 {
    match t {
        SpecializedToolType::NoTool => -1i32,
        SpecializedToolType::GhillieMantle => 0,
        SpecializedToolType::TemporalMantle => 1,
        SpecializedToolType::HealthBooster => 2,
        SpecializedToolType::RocksteadyMantle => 3,
        SpecializedToolType::ChallengerMantle => 4,
        SpecializedToolType::VitalityMantle => 5,
        SpecializedToolType::FireproofMantle => 6,
        SpecializedToolType::WaterproofMantle => 7,
        SpecializedToolType::IceproofMantle => 8,
        SpecializedToolType::ThunderproofMantle => 9,
        SpecializedToolType::DragonproofMantle => 10,
        SpecializedToolType::CleanserBooster => 11,
        SpecializedToolType::GliderMantle => 12,
        SpecializedToolType::EvasionMantle => 13,
        SpecializedToolType::ImpactMantle => 14,
        SpecializedToolType::ApothecaryMantle => 15,
        SpecializedToolType::ImmunityMantle => 16,
        SpecializedToolType::AffinityBooster => 17,
        SpecializedToolType::BanditMantle => 18,
        SpecializedToolType::AssassinsHood => 19,
    }
}

impl SpecializedToolType {
    /// The tool kind that a game value names. The game's values skip the
    /// thunderproof mantle: 9 is the dragonproof mantle, and so on up to
    /// 18, the assassin's hood; other values are no tool.
    pub fn from(value: i32) -> (r: Self)
        ensures
            0 <= value <= 8 ==> tool_number(r) == value,
            9 <= value <= 18 ==> tool_number(r) == value + 1,
            !(0 <= value <= 18) ==> r == SpecializedToolType::NoTool,
    {
        match value {
            0 => SpecializedToolType::GhillieMantle,
            1 => SpecializedToolType::TemporalMantle,
            2 => SpecializedToolType::HealthBooster,
            3 => SpecializedToolType::RocksteadyMantle,
            4 => SpecializedToolType::ChallengerMantle,
            5 => SpecializedToolType::VitalityMantle,
            6 => SpecializedToolType::FireproofMantle,
            7 => SpecializedToolType::WaterproofMantle,
            8 => SpecializedToolType::IceproofMantle,
            9 => SpecializedToolType::DragonproofMantle,
            10 => SpecializedToolType::CleanserBooster,
            11 => SpecializedToolType::GliderMantle,
            12 => SpecializedToolType::EvasionMantle,
            13 => SpecializedToolType::ImpactMantle,
            14 => SpecializedToolType::ApothecaryMantle,
            15 => SpecializedToolType::ImmunityMantle,
            16 => SpecializedToolType::AffinityBooster,
            17 => SpecializedToolType::BanditMantle,
            18 => SpecializedToolType::AssassinsHood,
            _ => SpecializedToolType::NoTool,
        }
    }

    /// The tool kind's number.
    pub fn as_i32(&self) -> (r: i32)
        ensures
            r == tool_number(*self),
    {
        match self {
            SpecializedToolType::NoTool => -1i32,
            SpecializedToolType::GhillieMantle => 0,
            SpecializedToolType::TemporalMantle => 1,
            SpecializedToolType::HealthBooster => 2,
            SpecializedToolType::RocksteadyMantle => 3,
            SpecializedToolType::ChallengerMantle => 4,
            SpecializedToolType::VitalityMantle => 5,
            SpecializedToolType::FireproofMantle => 6,
            SpecializedToolType::WaterproofMantle => 7,
            SpecializedToolType::IceproofMantle => 8,
            SpecializedToolType::ThunderproofMantle => 9,
            SpecializedToolType::DragonproofMantle => 10,
            SpecializedToolType::CleanserBooster => 11,
            SpecializedToolType::GliderMantle => 12,
            SpecializedToolType::EvasionMantle => 13,
            SpecializedToolType::ImpactMantle => 14,
            SpecializedToolType::ApothecaryMantle => 15,
            SpecializedToolType::ImmunityMantle => 16,
            SpecializedToolType::AffinityBooster => 17,
            SpecializedToolType::BanditMantle => 18,
            SpecializedToolType::AssassinsHood => 19,
        }
    }
}

impl PartialEq<i32> for SpecializedToolType {
    fn eq(&self, other: &i32) -> (r: bool) {
        self.as_i32() == *other
    }
}

impl vstd::std_specs::cmp::PartialEqSpecImpl<i32> for SpecializedToolType {
    open spec fn obeys_eq_spec() -> bool {
        true
    }

    open spec fn eq_spec(&self, other: &i32) -> bool {
        tool_number(*self) == *other
    }
}

/// The frame colour of a system message.
#[derive(Debug, Clone, Copy, PartialEq, Eq, Hash, Structural)]
pub enum SystemMessageColor {
    Blue,
    Purple,
}

/// Who a chat message goes to.
#[derive(Debug, Clone, Copy, PartialEq, Eq, Hash, Structural)]
pub enum SendTarget {
    Default,
    Quest,
    OutsideQuest,
    /// One player, by Steam id.
    Specified(u64),
    AtHome,
    All,
}

/// The game's number for a send target.
pub open spec fn target_number(t: SendTarget) -> i32 {
    match t {
        SendTarget::Default => -1i32,
        SendTarget::Quest => 0,
        SendTarget::OutsideQuest => 1,
        SendTarget::Specified(_) => 2,
        SendTarget::AtHome => 3,
        SendTarget::All => 4,
    }
}

/// The send target that the game's number names; a specified player gets
/// the id `player`.
pub open spec fn target_of(value: i32, player: u64) -> SendTarget {
    if value == 0 {
        SendTarget::Quest
    } else if value == 1 {
        SendTarget::OutsideQuest
    } else if value == 2 {
        SendTarget::Specified(player)
    } else if value == 3 {
        SendTarget::AtHome
    } else if value == 4 {
        SendTarget::All
    } else {
        SendTarget::Default
    }
}

impl SendTarget {
    /// The target of a game number; 2 gives player id 0, unknown numbers
    /// the default target.
    pub fn from(value: i32) -> (r: Self)
        ensures
            r == target_of(value, 0),
    {
        match value {
            0 => SendTarget::Quest,
            1 => SendTarget::OutsideQuest,
            2 => SendTarget::Specified(0),
            3 => SendTarget::AtHome,
            4 => SendTarget::All,
            _ => SendTarget::Default,
        }
    }

    pub fn as_i32(&self) -> (r: i32)
        ensures
            r == target_number(*self),
    {
        match self {
            SendTarget::Default => -1i32,
            SendTarget::Quest => 0,
            SendTarget::OutsideQuest => 1,
            SendTarget::Specified(_) => 2,
            SendTarget::AtHome => 3,
            SendTarget::All => 4,
        }
    }
}

/// A queued chat message and its target.
pub struct ChatMessage {
    pub msg: String,
    pub target: SendTarget,
}

/// Where the game keeps the chat interface.
pub const U_GUI_CHAT_BASE: u64 = 0x1451C4640;

/// Where the game keeps the last received message.
pub const MESSAGE_BASE: u64 = 0x144F87FF0;

/// Messages waiting to be sent, oldest first.
pub struct ChatMessageSender {
    queue: Vec<ChatMessage>,
}

impl ChatMessageSender {
    pub closed spec fn pending(&self) -> Seq<(Seq<char>, SendTarget)> {
        self.queue@.map_values(|m: ChatMessage| (m.msg@, m.target))
    }

    /// An empty queue.
    pub fn new() -> (r: Self)
        ensures
            r.pending() == Seq::<(Seq<char>, SendTarget)>::empty(),
    {
        let r = ChatMessageSender { queue: Vec::new() };
        assert(r.pending() =~= Seq::<(Seq<char>, SendTarget)>::empty());
        r
    }

    /// Queues `msg` for the current target.
    pub fn send(&mut self, msg: &str)
        ensures
            final(self).pending() == old(self).pending().push((msg@, SendTarget::Default)),
    {
        self.send_ex(msg, SendTarget::Default);
    }

    /// Queues `msg` for `target`.
    pub fn send_ex(&mut self, msg: &str, target: SendTarget)
        ensures
            final(self).pending() == old(self).pending().push((msg@, target)),
    {
        self.queue.push(ChatMessage { msg: String::from_str(msg), target });
        assert(self.pending() =~= old(self).pending().push((msg@, target)));
    }

    /// Takes the oldest queued message, if any.
    pub fn next_message(&mut self) -> (r: Option<ChatMessage>)
        ensures
            old(self).pending().len() == 0 ==> r is None && final(self).pending() == old(self).pending(),
            old(self).pending().len() > 0 ==> r is Some && final(self).pending() == old(self).pending().drop_first(),
            r matches Some(m) ==> (m.msg@, m.target) == old(self).pending()[0],
    {
        if self.queue.len() == 0 {
            return None;
        }
        let m = self.queue.remove(0);
        assert(self.pending() =~= old(self).pending().drop_first());
        Some(m)
    }

    /// Whether the chat accepts a message now: the busy flag at the end of
    /// the chat chain 0x13FD0, 0x325E reads false.
    pub fn can_send<M: ProcessMemory>(mem: &M) -> (r: bool)
        ensures
            r == (match chain_end(mem, U_GUI_CHAT_BASE, seq![0x13FD0i64, 0x325Ei64]) {
                Some(a) => bool_at(mem, Some(a)) == Some(false),
                None => false,
            }),
    {
        let offsets: [i64; 2] = [0x13FD0, 0x325E];
        assert(offsets@ =~= seq![0x13FD0i64, 0x325Ei64]);
        match follow_chain(mem, U_GUI_CHAT_BASE, offsets.as_slice()) {
            Some(a) => match read_bool(mem, Some(a)) {
                Some(busy) => !busy,
                None => false,
            },
            None => false,
        }
    }

    /// The target currently set in the chat: the number at the end of the
    /// chain 0x14748, with the player id at 0x14750 for a specified player;
    /// an unreadable number counts as all players, an unreadable id as 0.
    pub fn get_current_send_target<M: ProcessMemory>(mem: &M) -> (r: SendTarget)
        ensures
            ({
                let n = match chain_end(mem, U_GUI_CHAT_BASE, seq![0x14748i64]) {
                    Some(a) => match i32_at(mem, Some(a)) { Some(v) => v, None => 4i32 },
                    None => 4i32,
                };
                let p = match chain_end(mem, U_GUI_CHAT_BASE, seq![0x14750i64]) {
                    Some(a) => match u64_at(mem, Some(a)) { Some(v) => v, None => 0u64 },
                    None => 0u64,
                };
                r == target_of(n, p)
            }),
    {
        let offsets: [i64; 1] = [0x14748];
        assert(offsets@ =~= seq![0x14748i64]);
        let n = match follow_chain(mem, U_GUI_CHAT_BASE, offsets.as_slice()) {
            Some(a) => match read_i32(mem, Some(a)) {
                Some(v) => v,
                None => 4,
            },
            None => 4,
        };
        let player_offsets: [i64; 1] = [0x14750];
        assert(player_offsets@ =~= seq![0x14750i64]);
        let p = match follow_chain(mem, U_GUI_CHAT_BASE, player_offsets.as_slice()) {
            Some(a) => match read_u64(mem, Some(a)) {
                Some(v) => v,
                None => 0,
            },
            None => 0,
        };
        if n == 2 {
            SendTarget::Specified(p)
        } else {
            SendTarget::from(n)
        }
    }

    /// Sets the chat's target number; says whether it was written.
    pub fn set_send_target<M: ProcessMemory>(mem: &mut M, target: SendTarget) -> (r: bool)
        ensures
            r ==> (match chain_end(old(mem), U_GUI_CHAT_BASE, seq![0x14748i64]) {
                Some(a) => i32_at(final(mem), Some(a)) == Some(target_number(target)),
                None => false,
            }),
    {
        let offsets: [i64; 1] = [0x14748];
        assert(offsets@ =~= seq![0x14748i64]);
        let a = follow_chain(mem, U_GUI_CHAT_BASE, offsets.as_slice());
        match a {
            Some(a) => {
                let ok = write_i32(mem, Some(a), target.as_i32());
                ok
            },
            None => false,
        }
    }
}

/// The text that `String::from_utf8_lossy` makes of `b`.
pub uninterp spec fn utf8_lossy(b: Seq<u8>) -> Seq<char>;

/// Relies on `String::from_utf8_lossy`: the text of `bytes`, with each
/// invalid sequence replaced; it depends on the bytes alone.
#[verifier::external_body]
fn lossy_text(bytes: &[u8]) -> (r: String)
    ensures
        r@ == utf8_lossy(bytes@),
{
    String::from_utf8_lossy(bytes).into_owned()
}

/// Whether `s` begins with `prefix`.
pub open spec fn starts_with(s: Seq<char>, prefix: Seq<char>) -> bool {
    prefix.len() <= s.len() && s.subrange(0, prefix.len() as int) == prefix
}

/// Takes received chat messages that begin with a prefix.
pub struct ChatMessageReceiver {
    prefix: String,
}

impl ChatMessageReceiver {
    pub closed spec fn prefix(&self) -> Seq<char> {
        self.prefix@
    }

    /// A receiver that takes every message.
    pub fn new() -> (r: Self)
        ensures
            r.prefix() == Seq::<char>::empty(),
    {
        ChatMessageReceiver { prefix: String::new() }
    }

    /// Takes only messages that begin with `prefix` from now on.
    pub fn set_prefix_filter(&mut self, prefix: &str)
        ensures
            final(self).prefix() == prefix@,
    {
        self.prefix = String::from_str(prefix);
    }

    /// Whether `msg` passes the prefix filter.
    pub fn accepts(&self, msg: &str) -> (r: bool)
        ensures
            r == starts_with(msg@, self.prefix()),
    {
        let p = self.prefix.as_str();
        let n = p.unicode_len();
        if n > msg.unicode_len() {
            return false;
        }
        let mut i: usize = 0;
        while i < n
            invariant
                i <= n,
                n == p@.len(),
                n <= msg@.len(),
                p@ == self.prefix(),
                forall|k: int| 0 <= k < i ==> msg@[k] == p@[k],
            decreases n - i,
        {
            if msg.get_char(i) != p.get_char(i) {
                assert(msg@.subrange(0, n as int)[i as int] != p@[i as int]);
                return false;
            }
            i += 1;
        }
        assert(msg@.subrange(0, n as int) =~= p@);
        true
    }

    /// Takes the last received message when it passes the filter: its
    /// length is the `i32` at the end of the chain 0xBC from the message
    /// base, its bytes lie at the end of the chain 0xC0. A taken message is
    /// wiped, so that it is not read twice.
    pub fn try_recv<M: ProcessMemory>(&self, mem: &mut M) -> (r: Option<String>)
        ensures
            r matches Some(m) ==> starts_with(m@, self.prefix()),
            r matches Some(m) ==> ({
                let body = chain_end(old(mem), MESSAGE_BASE, seq![0xC0i64]);
                let len_at = chain_end(old(mem), MESSAGE_BASE, seq![0xBCi64]);
                &&& body is Some && len_at is Some
                &&& i32_at(old(mem), len_at) is Some
                &&& i32_at(old(mem), len_at)->Some_0 > 0
                &&& old(mem).bytes_at(body->Some_0 as int, i32_at(old(mem), len_at)->Some_0 as nat) is Some
                &&& m@ == utf8_lossy(old(mem).bytes_at(body->Some_0 as int, i32_at(old(mem), len_at)->Some_0 as nat)->Some_0)
            }),
            (match chain_end(old(mem), MESSAGE_BASE, seq![0xBCi64]) {
                Some(a) => match i32_at(old(mem), Some(a)) {
                    Some(n) => n <= 0,
                    None => true,
                },
                None => true,
            }) ==> r is None && *final(mem) == *old(mem),
    {
        let body_offsets: [i64; 1] = [0xC0];
        let len_offsets: [i64; 1] = [0xBC];
        assert(body_offsets@ =~= seq![0xC0i64]);
        assert(len_offsets@ =~= seq![0xBCi64]);
        let len_addr = follow_chain(mem, MESSAGE_BASE, len_offsets.as_slice())?;
        let len = read_i32(mem, Some(len_addr))?;
        if len <= 0 {
            return None;
        }
        let body = follow_chain(mem, MESSAGE_BASE, body_offsets.as_slice())?;
        let bytes = mem.read(body, len as usize)?;
        let msg = lossy_text(bytes.as_slice());
        if !self.accepts(msg.as_str()) {
            return None;
        }
        let zeros: Vec<u8> = vec![0u8; len as usize];
        let _ = mem.write(body, zeros.as_slice());
        let _ = write_i32(mem, Some(len_addr), 0);
        Some(msg)
    }
}

/// Offset of the text buffer in the chat interface.
pub const CHAT_BUFFER_OFFSET: u64 = 0x165;

/// The chat's 128-byte text buffer holding `msg`: its first 127 bytes at
/// most, then zeros.
pub open spec fn chat_buffer(msg: Seq<u8>) -> Seq<u8> {
    let n = if msg.len() >= 128 { 127 } else { msg.len() };
    msg.take(n as int) + Seq::new((128 - n) as nat, |_i: int| 0u8)
}

/// Where the chat's text buffer lies.
pub open spec fn chat_text_address<M: ProcessMemory>(mem: &M) -> Option<u64> {
    match chain_end(mem, U_GUI_CHAT_BASE, seq![0x13FD0i64, 0x28F8i64]) {
        Some(c) => field_address(c, CHAT_BUFFER_OFFSET),
        None => None,
    }
}

/// Where the chat's send flag lies.
pub open spec fn send_flag_address<M: ProcessMemory>(mem: &M) -> Option<u64> {
    chain_end(mem, U_GUI_CHAT_BASE, seq![0x13FD0i64, 0x325Ei64])
}

/// Sends `message` as the player: puts it in the chat's text buffer and
/// raises the send flag. An empty message is not sent; `false` also when
/// the chat cannot be found or written.
pub fn send_chat_message<M: ProcessMemory>(mem: &mut M, message: &str) -> (r: bool)
    requires
        forall|i: int| 0 <= i < message.spec_bytes().len() ==> message.spec_bytes()[i] != 0,
    ensures
        message.spec_bytes().len() == 0 ==> !r && *final(mem) == *old(mem),
        r ==> chat_text_address(old(mem)) is Some && send_flag_address(old(mem)) is Some,
        r ==> final(mem).bytes_at(send_flag_address(old(mem))->Some_0 as int, 1) == Some(seq![1u8]),
        r ==> ({
            let t = chat_text_address(old(mem))->Some_0;
            let f = send_flag_address(old(mem))->Some_0;
            (f + 1 <= t || t + 128 <= f) ==> final(mem).bytes_at(t as int, 128) == Some(chat_buffer(message.spec_bytes()))
        }),
{
    let bytes = message.as_bytes();
    if bytes.len() == 0 {
        return false;
    }
    let text_offsets: [i64; 2] = [0x13FD0, 0x28F8];
    assert(text_offsets@ =~= seq![0x13FD0i64, 0x28F8i64]);
    let flag_offsets: [i64; 2] = [0x13FD0, 0x325E];
    assert(flag_offsets@ =~= seq![0x13FD0i64, 0x325Ei64]);
    let chat = match follow_chain(mem, U_GUI_CHAT_BASE, text_offsets.as_slice()) {
        Some(c) => c,
        None => return false,
    };
    let text = match field_addr(chat, CHAT_BUFFER_OFFSET) {
        Some(t) => t,
        None => return false,
    };
    let flag = match follow_chain(mem, U_GUI_CHAT_BASE, flag_offsets.as_slice()) {
        Some(f) => f,
        None => return false,
    };
    let n: usize = if bytes.len() >= 128 { 127 } else { bytes.len() };
    let mut buffer: Vec<u8> = Vec::new();
    let mut k: usize = 0;
    while k < 128
        invariant
            k <= 128,
            n <= 127,
            n <= bytes@.len(),
            buffer@.len() == k,
            forall|j: int| 0 <= j < k ==> #[trigger] buffer@[j] == if j < n { bytes@[j] } else { 0u8 },
        decreases 128 - k,
    {
        if k < n {
            buffer.push(bytes[k]);
        } else {
            buffer.push(0);
        }
        k += 1;
    }
    assert(buffer@ =~= chat_buffer(message.spec_bytes()));
    if !mem.write(text, buffer.as_slice()) {
        return false;
    }
    let ghost after_text = *mem;
    let raised: [u8; 1] = [1];
    let ok = mem.write(flag, raised.as_slice());
    proof {
        assert(raised@ =~= seq![1u8]);
        if ok && (flag + 1 <= text || text + 128 <= flag) {
            assert(mem.bytes_at(text as int, 128) == after_text.bytes_at(text as int, 128));
        }
    }
    ok
}

} // verus!
