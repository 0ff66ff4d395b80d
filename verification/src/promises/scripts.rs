//! The scripts that the store runs.

use vstd::prelude::*;

use crate::command::{script_text, Script, ScriptText, ScriptTextV, FENCE_KEEP, LATCH_COUNT_DOWN,
    LATCH_GET, LATCH_INIT, WILL_DEL, WILL_GET, WILL_SET};

verus! {

/// Every script runs the text of its own name.
pub proof fn scripts_are_called_by_their_names()
    ensures
        forall|t: ScriptText| #[trigger]
            call_ensures(Script::text, (&Script::Acquire,), t) ==> t@ == ScriptTextV::File("acquire.lua"@),
        forall|t: ScriptText| #[trigger]
            call_ensures(Script::text, (&Script::Release,), t) ==> t@ == ScriptTextV::File("release.lua"@),
        forall|t: ScriptText| #[trigger]
            call_ensures(Script::text, (&Script::Extend,), t) ==> t@ == ScriptTextV::File("extend.lua"@),
        forall|t: ScriptText| #[trigger]
            call_ensures(Script::text, (&Script::ReentrantAcquire,), t) ==> t@ == ScriptTextV::File("reentrant_acquire.lua"@),
        forall|t: ScriptText| #[trigger]
            call_ensures(Script::text, (&Script::ReentrantRelease,), t) ==> t@ == ScriptTextV::File("reentrant_release.lua"@),
        forall|t: ScriptText| #[trigger]
            call_ensures(Script::text, (&Script::ReentrantReleaseAll,), t) ==> t@ == ScriptTextV::File("reentrant_release_all.lua"@),
        forall|t: ScriptText| #[trigger]
            call_ensures(Script::text, (&Script::ReentrantExtend,), t) ==> t@ == ScriptTextV::File("reentrant_extend.lua"@),
        forall|t: ScriptText| #[trigger]
            call_ensures(Script::text, (&Script::RwReadAcquire,), t) ==> t@ == ScriptTextV::File("rw_read_acquire.lua"@),
        forall|t: ScriptText| #[trigger]
            call_ensures(Script::text, (&Script::RwReadRelease,), t) ==> t@ == ScriptTextV::File("rw_read_release.lua"@),
        forall|t: ScriptText| #[trigger]
            call_ensures(Script::text, (&Script::RwWriteAcquire,), t) ==> t@ == ScriptTextV::File("rw_write_acquire.lua"@),
        forall|t: ScriptText| #[trigger]
            call_ensures(Script::text, (&Script::RwWriteRelease,), t) ==> t@ == ScriptTextV::File("rw_write_release.lua"@),
        forall|t: ScriptText| #[trigger]
            call_ensures(Script::text, (&Script::RwExtend,), t) ==> t@ == ScriptTextV::File("rw_extend.lua"@),
        forall|t: ScriptText| #[trigger]
            call_ensures(Script::text, (&Script::FairAcquire,), t) ==> t@ == ScriptTextV::File("fair_acquire.lua"@),
        forall|t: ScriptText| #[trigger]
            call_ensures(Script::text, (&Script::FairRelease,), t) ==> t@ == ScriptTextV::File("fair_release.lua"@),
{
}

/// The scripts that are kept here say what they say: a will is stored and
/// deleted only while the token owns the lock, and told only to another holder;
/// a fence counter is only ever kept longer; a latch is set once and never goes
/// below zero.
pub proof fn kept_scripts_say_what_they_say()
    ensures
        forall|t: ScriptText| #[trigger]
            call_ensures(Script::text, (&Script::FenceKeep,), t) ==> t@ == ScriptTextV::Inline(
                "
local left = redis.call('PTTL', KEYS[1])
if left >= 0 and left < tonumber(ARGV[1]) then
  redis.call('PEXPIRE', KEYS[1], ARGV[1])
end
return 1
"@,
            ),
        forall|t: ScriptText| #[trigger]
            call_ensures(Script::text, (&Script::WillSet,), t) ==> t@ == ScriptTextV::Inline(
                "
if redis.call('GET', KEYS[1]) == ARGV[1] then
  redis.call('SET', KEYS[2], '', 'PX', ARGV[3])
  redis.call('DEL', KEYS[2])
  redis.call('HSET', KEYS[2], 'token', ARGV[1], 'payload', ARGV[2])
  redis.call('PEXPIRE', KEYS[2], ARGV[3])
  return 1
end
return 0
"@,
            ),
        forall|t: ScriptText| #[trigger]
            call_ensures(Script::text, (&Script::WillGet,), t) ==> t@ == ScriptTextV::Inline(
                "
local kind = redis.call('TYPE', KEYS[1]).ok
if kind == 'none' then
  return false
end
if kind == 'string' and redis.call('GET', KEYS[1]) == redis.call('HGET', KEYS[2], 'token') then
  return false
end
return redis.call('HGET', KEYS[2], 'payload')
"@,
            ),
        forall|t: ScriptText| #[trigger]
            call_ensures(Script::text, (&Script::WillDel,), t) ==> t@ == ScriptTextV::Inline(
                "
if redis.call('GET', KEYS[1]) == ARGV[1] then
  redis.call('DEL', KEYS[2])
  return 1
end
return 0
"@,
            ),
        forall|t: ScriptText| #[trigger]
            call_ensures(Script::text, (&Script::LatchInit,), t) ==> t@ == ScriptTextV::Inline(
                "
if redis.call('SET', KEYS[1], ARGV[1], 'NX') then
  return 1
end
return 0
"@,
            ),
        forall|t: ScriptText| #[trigger]
            call_ensures(Script::text, (&Script::LatchCountDown,), t) ==> t@ == ScriptTextV::Inline(
                "
local v = tonumber(redis.call('GET', KEYS[1]) or '-1')
if v < 0 then
  return -1
end
if v == 0 then
  return 0
end
return redis.call('DECR', KEYS[1])
"@,
            ),
        forall|t: ScriptText| #[trigger]
            call_ensures(Script::text, (&Script::LatchGet,), t) ==> t@ == ScriptTextV::Inline(
                "
local v = tonumber(redis.call('GET', KEYS[1]) or '-1')
if v < 0 then
  return -1
end
return v
"@,
            ),
{
}

/// No two scripts run the same text.
pub proof fn scripts_have_different_texts(a: Script, b: Script)
    requires
        script_text(a) == script_text(b),
    ensures
        a == b,
{
    reveal_strlit("acquire.lua");
    reveal_strlit("release.lua");
    reveal_strlit("extend.lua");
    reveal_strlit("reentrant_acquire.lua");
    reveal_strlit("reentrant_release.lua");
    reveal_strlit("reentrant_release_all.lua");
    reveal_strlit("reentrant_extend.lua");
    reveal_strlit("rw_read_acquire.lua");
    reveal_strlit("rw_read_release.lua");
    reveal_strlit("rw_write_acquire.lua");
    reveal_strlit("rw_write_release.lua");
    reveal_strlit("rw_extend.lua");
    reveal_strlit("fair_acquire.lua");
    reveal_strlit("fair_release.lua");
    reveal_strlit("
local left = redis.call('PTTL', KEYS[1])
if left >= 0 and left < tonumber(ARGV[1]) then
  redis.call('PEXPIRE', KEYS[1], ARGV[1])
end
return 1
");
    assert(FENCE_KEEP@.len() == 144);
    reveal_strlit("
if redis.call('GET', KEYS[1]) == ARGV[1] then
  redis.call('SET', KEYS[2], '', 'PX', ARGV[3])
  redis.call('DEL', KEYS[2])
  redis.call('HSET', KEYS[2], 'token', ARGV[1], 'payload', ARGV[2])
  redis.call('PEXPIRE', KEYS[2], ARGV[3])
  return 1
end
return 0
");
    assert(WILL_SET@.len() == 258);
    reveal_strlit("
local kind = redis.call('TYPE', KEYS[1]).ok
if kind == 'none' then
  return false
end
if kind == 'string' and redis.call('GET', KEYS[1]) == redis.call('HGET', KEYS[2], 'token') then
  return false
end
return redis.call('HGET', KEYS[2], 'payload')
");
    assert(WILL_GET@.len() == 248);
    reveal_strlit("
if redis.call('GET', KEYS[1]) == ARGV[1] then
  redis.call('DEL', KEYS[2])
  return 1
end
return 0
");
    assert(WILL_DEL@.len() == 100);
    reveal_strlit("
if redis.call('SET', KEYS[1], ARGV[1], 'NX') then
  return 1
end
return 0
");
    assert(LATCH_INIT@.len() == 75);
    reveal_strlit("
local v = tonumber(redis.call('GET', KEYS[1]) or '-1')
if v < 0 then
  return -1
end
if v == 0 then
  return 0
end
return redis.call('DECR', KEYS[1])
");
    assert(LATCH_COUNT_DOWN@.len() == 151);
    reveal_strlit("
local v = tonumber(redis.call('GET', KEYS[1]) or '-1')
if v < 0 then
  return -1
end
return v
");
    assert(LATCH_GET@.len() == 95);
    assert("acquire.lua"@.len() == 11);
    assert("release.lua"@.len() == 11);
    assert("extend.lua"@.len() == 10);
    assert("reentrant_acquire.lua"@.len() == 21);
    assert("reentrant_release.lua"@.len() == 21);
    assert("reentrant_release_all.lua"@.len() == 25);
    assert("reentrant_extend.lua"@.len() == 20);
    assert("rw_read_acquire.lua"@.len() == 19);
    assert("rw_read_release.lua"@.len() == 19);
    assert("rw_write_acquire.lua"@.len() == 20);
    assert("rw_write_release.lua"@.len() == 20);
    assert("rw_extend.lua"@.len() == 13);
    assert("fair_acquire.lua"@.len() == 16);
    assert("fair_release.lua"@.len() == 16);
    assert("acquire.lua"@[0] != "release.lua"@[0]);
    assert("reentrant_acquire.lua"@[10] != "reentrant_release.lua"@[10]);
    assert("rw_read_acquire.lua"@[8] != "rw_read_release.lua"@[8]);
    assert("reentrant_extend.lua"@[1] != "rw_write_acquire.lua"@[1]);
    assert("reentrant_extend.lua"@[1] != "rw_write_release.lua"@[1]);
    assert("rw_write_acquire.lua"@[9] != "rw_write_release.lua"@[9]);
    assert("fair_acquire.lua"@[5] != "fair_release.lua"@[5]);
}

} // verus!
