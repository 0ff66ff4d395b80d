//! What is sent to the store: scripts with their keys and arguments, and
//! plain commands.

use vstd::prelude::*;

verus! {

/// Stores a will, with the token that left it, while the token owns the lock.
pub const WILL_SET: &'static str = "
if redis.call('GET', KEYS[1]) == ARGV[1] then
  redis.call('SET', KEYS[2], '', 'PX', ARGV[3])
  redis.call('DEL', KEYS[2])
  redis.call('HSET', KEYS[2], 'token', ARGV[1], 'payload', ARGV[2])
  redis.call('PEXPIRE', KEYS[2], ARGV[3])
  return 1
end
return 0
";

/// Answers with the will of a lock while its holder is another than the one
/// that left it; answers with nothing otherwise. Only a mutex or a fair lock can
/// leave a will, and only these are plain strings.
pub const WILL_GET: &'static str = "
local kind = redis.call('TYPE', KEYS[1]).ok
if kind == 'none' then
  return false
end
if kind == 'string' and redis.call('GET', KEYS[1]) == redis.call('HGET', KEYS[2], 'token') then
  return false
end
return redis.call('HGET', KEYS[2], 'payload')
";

/// Deletes a will while the token owns the lock.
pub const WILL_DEL: &'static str = "
if redis.call('GET', KEYS[1]) == ARGV[1] then
  redis.call('DEL', KEYS[2])
  return 1
end
return 0
";

/// Keeps a fence counter for a lease; one that lives longer is left alone.
pub const FENCE_KEEP: &'static str = "
local left = redis.call('PTTL', KEYS[1])
if left >= 0 and left < tonumber(ARGV[1]) then
  redis.call('PEXPIRE', KEYS[1], ARGV[1])
end
return 1
";

/// Sets a latch that does not exist yet, so that racing initialisers agree on
/// one count.
pub const LATCH_INIT: &'static str = "
if redis.call('SET', KEYS[1], ARGV[1], 'NX') then
  return 1
end
return 0
";

/// Takes one off a latch above zero and answers with what remains; answers -1
/// where there is no latch.
pub const LATCH_COUNT_DOWN: &'static str = "
local v = tonumber(redis.call('GET', KEYS[1]) or '-1')
if v < 0 then
  return -1
end
if v == 0 then
  return 0
end
return redis.call('DECR', KEYS[1])
";

/// Answers with what remains of a latch, or -1 where there is none.
pub const LATCH_GET: &'static str = "
local v = tonumber(redis.call('GET', KEYS[1]) or '-1')
if v < 0 then
  return -1
end
return v
";

/// A script that the store runs atomically.
#[derive(Clone, Copy, Debug, PartialEq, Eq, Structural)]
pub enum Script {
    Acquire,
    Release,
    Extend,
    ReentrantAcquire,
    ReentrantRelease,
    ReentrantReleaseAll,
    ReentrantExtend,
    RwReadAcquire,
    RwReadRelease,
    RwWriteAcquire,
    RwWriteRelease,
    RwExtend,
    FairAcquire,
    FairRelease,
    FenceKeep,
    WillSet,
    WillGet,
    WillDel,
    LatchInit,
    LatchCountDown,
    LatchGet,
}

/// Where the text of a script is found.
#[derive(Clone, Copy, Debug)]
pub enum ScriptText {
    /// In the file of this name.
    File(&'static str),
    /// This very text.
    Inline(&'static str),
}

/// Where the text of a script is found, the name or the text as characters.
pub enum ScriptTextV {
    File(Seq<char>),
    Inline(Seq<char>),
}

impl View for ScriptText {
    type V = ScriptTextV;

    open spec fn view(&self) -> ScriptTextV {
        match self {
            ScriptText::File(n) => ScriptTextV::File(n@),
            ScriptText::Inline(t) => ScriptTextV::Inline(t@),
        }
    }
}

/// Where the text of each script is found.
pub open spec fn script_text(s: Script) -> ScriptTextV {
    match s {
        Script::Acquire => ScriptTextV::File("acquire.lua"@),
        Script::Release => ScriptTextV::File("release.lua"@),
        Script::Extend => ScriptTextV::File("extend.lua"@),
        Script::ReentrantAcquire => ScriptTextV::File("reentrant_acquire.lua"@),
        Script::ReentrantRelease => ScriptTextV::File("reentrant_release.lua"@),
        Script::ReentrantReleaseAll => ScriptTextV::File("reentrant_release_all.lua"@),
        Script::ReentrantExtend => ScriptTextV::File("reentrant_extend.lua"@),
        Script::RwReadAcquire => ScriptTextV::File("rw_read_acquire.lua"@),
        Script::RwReadRelease => ScriptTextV::File("rw_read_release.lua"@),
        Script::RwWriteAcquire => ScriptTextV::File("rw_write_acquire.lua"@),
        Script::RwWriteRelease => ScriptTextV::File("rw_write_release.lua"@),
        Script::RwExtend => ScriptTextV::File("rw_extend.lua"@),
        Script::FairAcquire => ScriptTextV::File("fair_acquire.lua"@),
        Script::FairRelease => ScriptTextV::File("fair_release.lua"@),
        Script::FenceKeep => ScriptTextV::Inline(FENCE_KEEP@),
        Script::WillSet => ScriptTextV::Inline(WILL_SET@),
        Script::WillGet => ScriptTextV::Inline(WILL_GET@),
        Script::WillDel => ScriptTextV::Inline(WILL_DEL@),
        Script::LatchInit => ScriptTextV::Inline(LATCH_INIT@),
        Script::LatchCountDown => ScriptTextV::Inline(LATCH_COUNT_DOWN@),
        Script::LatchGet => ScriptTextV::Inline(LATCH_GET@),
    }
}

impl Script {
    /// Where the text of the script is found.
    pub fn text(&self) -> (r: ScriptText)
        ensures
            r@ == script_text(*self),
    {
        match self {
            Script::Acquire => ScriptText::File("acquire.lua"),
            Script::Release => ScriptText::File("release.lua"),
            Script::Extend => ScriptText::File("extend.lua"),
            Script::ReentrantAcquire => ScriptText::File("reentrant_acquire.lua"),
            Script::ReentrantRelease => ScriptText::File("reentrant_release.lua"),
            Script::ReentrantReleaseAll => ScriptText::File("reentrant_release_all.lua"),
            Script::ReentrantExtend => ScriptText::File("reentrant_extend.lua"),
            Script::RwReadAcquire => ScriptText::File("rw_read_acquire.lua"),
            Script::RwReadRelease => ScriptText::File("rw_read_release.lua"),
            Script::RwWriteAcquire => ScriptText::File("rw_write_acquire.lua"),
            Script::RwWriteRelease => ScriptText::File("rw_write_release.lua"),
            Script::RwExtend => ScriptText::File("rw_extend.lua"),
            Script::FairAcquire => ScriptText::File("fair_acquire.lua"),
            Script::FairRelease => ScriptText::File("fair_release.lua"),
            Script::FenceKeep => ScriptText::Inline(FENCE_KEEP),
            Script::WillSet => ScriptText::Inline(WILL_SET),
            Script::WillGet => ScriptText::Inline(WILL_GET),
            Script::WillDel => ScriptText::Inline(WILL_DEL),
            Script::LatchInit => ScriptText::Inline(LATCH_INIT),
            Script::LatchCountDown => ScriptText::Inline(LATCH_COUNT_DOWN),
            Script::LatchGet => ScriptText::Inline(LATCH_GET),
        }
    }
}

/// One argument.
#[derive(Debug)]
pub enum Arg {
    Text(String),
    Int(u64),
    Bytes(Vec<u8>),
}

/// One argument, its content as a sequence.
pub enum ArgV {
    Text(Seq<char>),
    Int(u64),
    Bytes(Seq<u8>),
}

impl View for Arg {
    type V = ArgV;

    open spec fn view(&self) -> ArgV {
        match self {
            Arg::Text(t) => ArgV::Text(t@),
            Arg::Int(n) => ArgV::Int(*n),
            Arg::Bytes(b) => ArgV::Bytes(b@),
        }
    }
}

/// The script of a call: a known one, or one composed for this call.
#[derive(Debug)]
pub enum Program {
    Known(Script),
    Composed(String),
}

/// The script of a call, a composed text as characters.
pub enum ProgramV {
    Known(Script),
    Composed(Seq<char>),
}

impl View for Program {
    type V = ProgramV;

    open spec fn view(&self) -> ProgramV {
        match self {
            Program::Known(s) => ProgramV::Known(*s),
            Program::Composed(t) => ProgramV::Composed(t@),
        }
    }
}

/// One atomic script call: the script, its keys and its arguments, in order.
#[derive(Debug)]
pub struct Invocation {
    pub program: Program,
    pub keys: Vec<String>,
    pub args: Vec<Arg>,
}

/// One script call over sequences.
pub struct InvocationV {
    pub program: ProgramV,
    pub keys: Seq<Seq<char>>,
    pub args: Seq<ArgV>,
}

impl View for Invocation {
    type V = InvocationV;

    open spec fn view(&self) -> InvocationV {
        InvocationV {
            program: self.program@,
            keys: texts(self.keys@),
            args: self.args@.map_values(|a: Arg| a@),
        }
    }
}

/// The texts of a sequence of strings.
pub open spec fn texts(s: Seq<String>) -> Seq<Seq<char>> {
    s.map_values(|t: String| t@)
}

/// A call of `s` with no key and no argument yet.
pub open spec fn call(s: Script) -> InvocationV {
    InvocationV { program: ProgramV::Known(s), keys: seq![], args: seq![] }
}

impl InvocationV {
    /// The call with one more key.
    pub open spec fn key(self, k: Seq<char>) -> InvocationV {
        InvocationV { keys: self.keys.push(k), ..self }
    }

    /// The call with one more argument, a text.
    pub open spec fn text(self, t: Seq<char>) -> InvocationV {
        InvocationV { args: self.args.push(ArgV::Text(t)), ..self }
    }

    /// The call with one more argument, a number.
    pub open spec fn num(self, n: u64) -> InvocationV {
        InvocationV { args: self.args.push(ArgV::Int(n)), ..self }
    }

    /// The call with one more argument, raw bytes.
    pub open spec fn bytes(self, b: Seq<u8>) -> InvocationV {
        InvocationV { args: self.args.push(ArgV::Bytes(b)), ..self }
    }
}

impl Invocation {
    /// A call of `s` with no key and no argument yet.
    pub fn call(s: Script) -> (r: Self)
        ensures
            r@ == call(s),
    {
        let r = Invocation { program: Program::Known(s), keys: Vec::new(), args: Vec::new() };
        proof {
            assert(r@.keys =~= call(s).keys);
            assert(r@.args =~= call(s).args);
        }
        r
    }

    /// A call of a script composed for this call.
    pub fn composed(source: String) -> (r: Self)
        ensures
            r@ == (InvocationV {
                program: ProgramV::Composed(source@),
                keys: seq![],
                args: seq![],
            }),
    {
        let r = Invocation {
            program: Program::Composed(source),
            keys: Vec::new(),
            args: Vec::new(),
        };
        proof {
            assert(r@.keys =~= seq![]);
            assert(r@.args =~= seq![]);
        }
        r
    }

    /// The call with one more key.
    pub fn key(self, k: &str) -> (r: Self)
        ensures
            r@ == self@.key(k@),
    {
        let ghost before = self@;
        let mut me = self;
        me.keys.push(k.to_owned());
        proof {
            assert(me@.keys =~= before.keys.push(k@));
        }
        me
    }

    /// The call with one more argument, a text.
    pub fn text(self, t: &str) -> (r: Self)
        ensures
            r@ == self@.text(t@),
    {
        let ghost before = self@;
        let mut me = self;
        me.args.push(Arg::Text(t.to_owned()));
        proof {
            assert(me@.args =~= before.args.push(ArgV::Text(t@)));
        }
        me
    }

    /// The call with one more argument, a number.
    pub fn num(self, n: u64) -> (r: Self)
        ensures
            r@ == self@.num(n),
    {
        let ghost before = self@;
        let mut me = self;
        me.args.push(Arg::Int(n));
        proof {
            assert(me@.args =~= before.args.push(ArgV::Int(n)));
        }
        me
    }

    /// The call with one more argument, raw bytes.
    pub fn bytes(self, b: Vec<u8>) -> (r: Self)
        ensures
            r@ == self@.bytes(b@),
    {
        let ghost before = self@;
        let mut me = self;
        let ghost bytes = b@;
        me.args.push(Arg::Bytes(b));
        proof {
            assert(me@.args =~= before.args.push(ArgV::Bytes(bytes)));
        }
        me
    }
}

/// A plain command with its arguments, in order.
#[derive(Debug)]
pub struct Command {
    pub name: String,
    pub args: Vec<Arg>,
}

/// A plain command over sequences.
pub struct CommandV {
    pub name: Seq<char>,
    pub args: Seq<ArgV>,
}

impl View for Command {
    type V = CommandV;

    open spec fn view(&self) -> CommandV {
        CommandV { name: self.name@, args: self.args@.map_values(|a: Arg| a@) }
    }
}

/// The command `name` with no argument yet.
pub open spec fn cmd(name: Seq<char>) -> CommandV {
    CommandV { name, args: seq![] }
}

impl CommandV {
    /// The command with one more argument, a text.
    pub open spec fn text(self, t: Seq<char>) -> CommandV {
        CommandV { args: self.args.push(ArgV::Text(t)), ..self }
    }

    /// The command with one more argument, a number.
    pub open spec fn num(self, n: u64) -> CommandV {
        CommandV { args: self.args.push(ArgV::Int(n)), ..self }
    }
}

impl Command {
    /// The command `name` with no argument yet.
    pub fn named(name: &str) -> (r: Self)
        ensures
            r@ == cmd(name@),
    {
        let r = Command { name: name.to_owned(), args: Vec::new() };
        proof {
            assert(r@.args =~= seq![]);
        }
        r
    }

    /// The command with one more argument, a text.
    pub fn text(self, t: &str) -> (r: Self)
        ensures
            r@ == self@.text(t@),
    {
        let ghost before = self@;
        let mut me = self;
        me.args.push(Arg::Text(t.to_owned()));
        proof {
            assert(me@.args =~= before.args.push(ArgV::Text(t@)));
        }
        me
    }

    /// The command with one more argument, a number.
    pub fn num(self, n: u64) -> (r: Self)
        ensures
            r@ == self@.num(n),
    {
        let ghost before = self@;
        let mut me = self;
        me.args.push(Arg::Int(n));
        proof {
            assert(me@.args =~= before.args.push(ArgV::Int(n)));
        }
        me
    }
}

} // verus!
