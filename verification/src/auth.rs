//! Who may do what: principals, their permissions and their quotas.
//!
//! A principal is known by a bearer token. It may touch the keys under its
//! prefixes, do the operations it was granted, hold so many keys, and watch so
//! many. In open mode every caller is `anonymous` and may do everything.

use vstd::prelude::*;

use crate::command::texts;
use crate::error::{Error, ErrorV};
use crate::status::{denied_line, refusal, AuditLine, AuditLineV, Code, Status, StatusV};
use crate::table::Table;
use crate::text::{decimal, decimal_of, is_empty, starts_with, strip_prefix};

verus! {

/// What is configured of a principal.
#[derive(Debug)]
pub struct PrincipalConfig {
    pub name: String,
    pub token: String,
    /// Prefixes of the keys it may touch; an empty one stands for all keys.
    pub key_prefixes: Vec<String>,
    pub can_lock: bool,
    pub can_unlock: bool,
    pub can_extend: bool,
    pub can_watch: bool,
    pub can_admin: bool,
    /// Most keys held at once; 0 for no limit.
    pub max_keys: u32,
    /// Most watchers at once; 0 for no limit.
    pub max_watchers: u32,
}

/// What is configured of a principal, over sequences.
pub struct PrincipalConfigV {
    pub name: Seq<char>,
    pub token: Seq<char>,
    pub key_prefixes: Seq<Seq<char>>,
    pub can_lock: bool,
    pub can_unlock: bool,
    pub can_extend: bool,
    pub can_watch: bool,
    pub can_admin: bool,
    pub max_keys: u32,
    pub max_watchers: u32,
}

impl View for PrincipalConfig {
    type V = PrincipalConfigV;

    open spec fn view(&self) -> PrincipalConfigV {
        PrincipalConfigV {
            name: self.name@,
            token: self.token@,
            key_prefixes: texts(self.key_prefixes@),
            can_lock: self.can_lock,
            can_unlock: self.can_unlock,
            can_extend: self.can_extend,
            can_watch: self.can_watch,
            can_admin: self.can_admin,
            max_keys: self.max_keys,
            max_watchers: self.max_watchers,
        }
    }
}

/// A permission that a principal may have.
#[derive(Clone, Copy, Debug, PartialEq, Eq, Structural)]
pub enum Permission {
    Lock,
    Unlock,
    Extend,
    Watch,
    Admin,
}

/// Whether a principal has a permission on the keys under its prefixes.
pub open spec fn grants(c: PrincipalConfigV, p: Permission) -> bool {
    match p {
        Permission::Lock => c.can_lock,
        Permission::Unlock => c.can_unlock,
        Permission::Extend => c.can_extend,
        Permission::Watch => c.can_watch,
        Permission::Admin => c.can_admin,
    }
}

/// Whether `key` lies under one of the prefixes of a principal.
pub open spec fn in_scope(c: PrincipalConfigV, key: Seq<char>) -> bool {
    exists|i: int| 0 <= i < c.key_prefixes.len() && (#[trigger] c.key_prefixes[i]).is_prefix_of(key)
}

/// What the audit trail calls the use of a permission.
pub open spec fn action_of(p: Permission) -> Seq<char> {
    match p {
        Permission::Lock => "lock"@,
        Permission::Unlock => "unlock"@,
        Permission::Extend => "extend"@,
        Permission::Watch => "watch"@,
        Permission::Admin => "admin"@,
    }
}

impl Permission {
    /// What the audit trail calls the use of this permission.
    pub fn action(self) -> (r: &'static str)
        ensures
            r@ == action_of(self),
    {
        match self {
            Permission::Lock => "lock",
            Permission::Unlock => "unlock",
            Permission::Extend => "extend",
            Permission::Watch => "watch",
            Permission::Admin => "admin",
        }
    }
}

/// Why a principal may not do an operation on `key`, if it may not. The audit
/// trail tells of it.
pub open spec fn denial(c: PrincipalConfigV, p: Permission, key: Seq<char>) -> Option<StatusV> {
    if !in_scope(c, key) {
        Some(
            StatusV {
                code: Code::PermissionDenied,
                message: "principal `"@ + c.name
                    + "` may not touch keys outside its prefixes (`"@ + key + "`)"@,
                audit: Some(denied_line(c.name, action_of(p), key)),
            },
        )
    } else if !grants(c, p) {
        Some(
            StatusV {
                code: Code::PermissionDenied,
                message: "principal `"@ + c.name + "` lacks permission for `"@ + key + "`"@,
                audit: Some(denied_line(c.name, action_of(p), key)),
            },
        )
    } else {
        None
    }
}

/// The refusal of another key for a principal that holds as many as it may.
pub open spec fn keys_exhausted(c: PrincipalConfigV, key: Seq<char>) -> StatusV {
    StatusV {
        code: Code::ResourceExhausted,
        message: "principal `"@ + c.name + "` hit max_keys="@ + decimal(c.max_keys as nat),
        audit: Some(denied_line(c.name, action_of(Permission::Lock), key)),
    }
}

/// The refusal of another watcher for a principal that has as many as it may.
pub open spec fn watchers_exhausted(c: PrincipalConfigV, key: Seq<char>) -> StatusV {
    StatusV {
        code: Code::ResourceExhausted,
        message: "principal `"@ + c.name + "` hit max_watchers="@ + decimal(
            c.max_watchers as nat,
        ),
        audit: Some(denied_line(c.name, action_of(Permission::Watch), key)),
    }
}

/// A known caller.
#[derive(Debug)]
pub struct Principal {
    pub cfg: PrincipalConfig,
    /// Keys held, as far as they are counted here.
    pub held_keys: usize,
    /// Active watchers.
    pub watchers: usize,
}

/// A known caller, over sequences.
pub struct PrincipalV {
    pub cfg: PrincipalConfigV,
    pub held_keys: usize,
    pub watchers: usize,
}

impl View for Principal {
    type V = PrincipalV;

    open spec fn view(&self) -> PrincipalV {
        PrincipalV { cfg: self.cfg@, held_keys: self.held_keys, watchers: self.watchers }
    }
}

/// The slot of an active watcher. Handing it back frees the slot.
#[derive(Debug)]
pub struct WatcherGuard {
    /// The principal's token; `None` for an anonymous watcher.
    pub token: Option<String>,
}

impl Principal {
    /// The name.
    pub fn name(&self) -> (r: &str)
        ensures
            r@ == self@.cfg.name,
    {
        self.cfg.name.as_str()
    }

    /// Whether `key` lies under one of the prefixes.
    fn covers(&self, key: &str) -> (r: bool)
        ensures
            r == in_scope(self@.cfg, key@),
    {
        let mut i: usize = 0;
        while i < self.cfg.key_prefixes.len()
            invariant
                0 <= i <= self.cfg.key_prefixes@.len(),
                forall|j: int|
                    0 <= j < i ==> !(#[trigger] self@.cfg.key_prefixes[j]).is_prefix_of(key@),
            decreases self.cfg.key_prefixes@.len() - i,
        {
            if starts_with(key, self.cfg.key_prefixes[i].as_str()) {
                proof {
                    assert(self@.cfg.key_prefixes[i as int].is_prefix_of(key@));
                }
                return true;
            }
            i += 1;
        }
        false
    }

    /// Refuses an operation that the principal may not do on `key`.
    pub fn may(&self, key: &str, permission: Permission) -> (r: Result<(), Status>)
        ensures
            r is Ok <==> denial(self@.cfg, permission, key@) is None,
            r matches Err(s) ==> denial(self@.cfg, permission, key@) == Some(s@),
    {
        if !self.covers(key) {
            return Err(
                Status {
                    code: Code::PermissionDenied,
                    message: "principal `".to_owned().concat(self.name()).concat(
                        "` may not touch keys outside its prefixes (`",
                    ).concat(key).concat("`)"),
                    audit: Some(AuditLine::denied(self.name(), permission.action(), key)),
                },
            );
        }
        let allowed = match permission {
            Permission::Lock => self.cfg.can_lock,
            Permission::Unlock => self.cfg.can_unlock,
            Permission::Extend => self.cfg.can_extend,
            Permission::Watch => self.cfg.can_watch,
            Permission::Admin => self.cfg.can_admin,
        };
        if allowed {
            return Ok(());
        }
        Err(
            Status {
                code: Code::PermissionDenied,
                message: "principal `".to_owned().concat(self.name()).concat(
                    "` lacks permission for `",
                ).concat(key).concat("`"),
                audit: Some(AuditLine::denied(self.name(), permission.action(), key)),
            },
        )
    }

    /// Whether the principal may lock `key`, within its quota of keys.
    pub fn check_lock(&self, key: &str) -> (r: Result<(), Status>)
        ensures
            lock_verdict(self@, key@) == (match r {
                Ok(()) => None,
                Err(s) => Some(s@),
            }),
    {
        match self.may(key, Permission::Lock) {
            Ok(()) => {},
            Err(s) => {
                return Err(s);
            },
        }
        let max: u32 = self.cfg.max_keys;
        if max > 0 && self.held_keys as u64 >= max as u64 {
            return Err(
                Status {
                    code: Code::ResourceExhausted,
                    message: "principal `".to_owned().concat(self.name()).concat(
                        "` hit max_keys=",
                    ).concat(decimal_of(max as u64).as_str()),
                    audit: Some(AuditLine::denied(self.name(), "lock", key)),
                },
            );
        }
        Ok(())
    }

    /// Whether the principal may unlock `key`.
    pub fn check_unlock(&self, key: &str) -> (r: Result<(), Status>)
        ensures
            r is Ok <==> denial(self@.cfg, Permission::Unlock, key@) is None,
            r matches Err(s) ==> denial(self@.cfg, Permission::Unlock, key@) == Some(s@),
    {
        self.may(key, Permission::Unlock)
    }

    /// Whether the principal may extend leases on `key`.
    pub fn check_extend(&self, key: &str) -> (r: Result<(), Status>)
        ensures
            r is Ok <==> denial(self@.cfg, Permission::Extend, key@) is None,
            r matches Err(s) ==> denial(self@.cfg, Permission::Extend, key@) == Some(s@),
    {
        self.may(key, Permission::Extend)
    }

    /// Whether the principal may administer `key`.
    pub fn check_admin(&self, key: &str) -> (r: Result<(), Status>)
        ensures
            r is Ok <==> denial(self@.cfg, Permission::Admin, key@) is None,
            r matches Err(s) ==> denial(self@.cfg, Permission::Admin, key@) == Some(s@),
    {
        self.may(key, Permission::Admin)
    }

    /// Whether the principal may watch `key` now, without taking a slot.
    pub fn may_watch(&self, key: &str) -> (r: Result<(), Status>)
        ensures
            watch_verdict(self@, key@) == (match r {
                Ok(()) => None,
                Err(s) => Some(s@),
            }),
    {
        match self.may(key, Permission::Watch) {
            Ok(()) => {},
            Err(s) => {
                return Err(s);
            },
        }
        let max: u32 = self.cfg.max_watchers;
        if max > 0 && self.watchers as u64 >= max as u64 {
            return Err(
                Status {
                    code: Code::ResourceExhausted,
                    message: "principal `".to_owned().concat(self.name()).concat(
                        "` hit max_watchers=",
                    ).concat(decimal_of(max as u64).as_str()),
                    audit: Some(AuditLine::denied(self.name(), "watch", key)),
                },
            );
        }
        Ok(())
    }

    /// Takes a watcher slot for `key`, within the quota of watchers.
    pub fn check_watch(&mut self, key: &str) -> (r: Result<(), Status>)
        ensures
            watch_verdict(old(self)@, key@) == (match r {
                Ok(()) => None,
                Err(s) => Some(s@),
            }),
            final(self)@ == if r is Ok {
                watched(old(self)@)
            } else {
                old(self)@
            },
            r is Ok && old(self)@.cfg.max_watchers > 0 ==> final(self)@.watchers <= old(
                self,
            )@.cfg.max_watchers,
    {
        match self.may_watch(key) {
            Ok(()) => {},
            Err(s) => {
                return Err(s);
            },
        }
        self.watchers = self.watchers.wrapping_add(1);
        Ok(())
    }

    /// The ceiling of keys held at once; 0 for no limit.
    pub fn max_keys(&self) -> (r: u32)
        ensures
            r == self@.cfg.max_keys,
    {
        self.cfg.max_keys
    }

    /// Gives a watcher slot back.
    pub fn note_watcher_denial(&mut self)
        ensures
            final(self)@ == unwatched(old(self)@),
    {
        self.watchers = self.watchers.wrapping_sub(1);
    }
}

/// Why a principal may not lock `key` now, if it may not.
pub open spec fn lock_verdict(p: PrincipalV, key: Seq<char>) -> Option<StatusV> {
    if denial(p.cfg, Permission::Lock, key) is Some {
        denial(p.cfg, Permission::Lock, key)
    } else if p.cfg.max_keys > 0 && p.held_keys >= p.cfg.max_keys {
        Some(keys_exhausted(p.cfg, key))
    } else {
        None
    }
}

/// Why a principal may not watch `key` now, if it may not.
pub open spec fn watch_verdict(p: PrincipalV, key: Seq<char>) -> Option<StatusV> {
    if denial(p.cfg, Permission::Watch, key) is Some {
        denial(p.cfg, Permission::Watch, key)
    } else if p.cfg.max_watchers > 0 && p.watchers >= p.cfg.max_watchers {
        Some(watchers_exhausted(p.cfg, key))
    } else {
        None
    }
}

/// A principal with one more watcher.
pub open spec fn watched(p: PrincipalV) -> PrincipalV {
    PrincipalV { watchers: p.watchers.wrapping_add(1), ..p }
}

/// A principal with one watcher less.
pub open spec fn unwatched(p: PrincipalV) -> PrincipalV {
    PrincipalV { watchers: p.watchers.wrapping_sub(1), ..p }
}

/// The principals after a watcher of the one under `token` is gone.
pub open spec fn slot_freed(
    by_token: Map<Seq<char>, PrincipalV>,
    token: Seq<char>,
) -> Map<Seq<char>, PrincipalV> {
    if by_token.dom().contains(token) {
        by_token.insert(token, unwatched(by_token[token]))
    } else {
        by_token
    }
}

/// A freed watcher slot leaves no trace: taking one and giving it back changes
/// nothing.
pub proof fn freed_watcher_slots_leave_no_trace(p: PrincipalV)
    ensures
        unwatched(watched(p)) == p,
{
}

/// The caller of open mode.
pub open spec fn anonymous() -> PrincipalV {
    PrincipalV {
        cfg: PrincipalConfigV {
            name: "anonymous"@,
            token: seq![],
            key_prefixes: seq![seq![]],
            can_lock: true,
            can_unlock: true,
            can_extend: true,
            can_watch: true,
            can_admin: true,
            max_keys: 0,
            max_watchers: 0,
        },
        held_keys: 0,
        watchers: 0,
    }
}

/// A principal that has done nothing yet.
pub open spec fn fresh(c: PrincipalConfigV) -> PrincipalV {
    PrincipalV { cfg: c, held_keys: 0, watchers: 0 }
}

/// The principals by token; of two with one token the later counts.
pub open spec fn principals_by_token(cfgs: Seq<PrincipalConfigV>) -> Map<Seq<char>, PrincipalV>
    decreases cfgs.len(),
{
    if cfgs.len() == 0 {
        Map::empty()
    } else {
        principals_by_token(cfgs.drop_last()).insert(cfgs.last().token, fresh(cfgs.last()))
    }
}

/// The configuration at `i` is the first without a token.
pub open spec fn first_without_token(cfgs: Seq<PrincipalConfigV>, i: int) -> bool {
    &&& 0 <= i < cfgs.len()
    &&& cfgs[i].token.len() == 0
    &&& forall|j: int| 0 <= j < i ==> (#[trigger] cfgs[j]).token.len() > 0
}

/// The known principals.
#[derive(Debug)]
pub struct Acl {
    open: bool,
    by_token: Table<Principal>,
    anonymous: Principal,
}

/// The known principals by token, and whether everyone is let in.
pub struct AclV {
    pub open: bool,
    pub by_token: Map<Seq<char>, PrincipalV>,
}

impl View for Acl {
    type V = AclV;

    closed spec fn view(&self) -> AclV {
        AclV { open: self.open, by_token: self.by_token@.map_values(|p: Principal| p@) }
    }
}

/// Why a caller is not known, if it is not; otherwise under which token.
pub open spec fn identify(acl: AclV, bearer: Option<Seq<char>>) -> Result<Seq<char>, StatusV> {
    match bearer {
        Some(h) => if "Bearer "@.is_prefix_of(h) {
            let token = h.skip("Bearer "@.len() as int);
            if acl.by_token.dom().contains(token) {
                Ok(token)
            } else {
                Err(refusal(Code::Unauthenticated, "unknown bearer token"@))
            }
        } else {
            Err(no_bearer())
        },
        None => Err(no_bearer()),
    }
}

/// The refusal of a caller that presents no token.
pub open spec fn no_bearer() -> StatusV {
    refusal(Code::Unauthenticated, "missing authorization: Bearer <token>"@)
}

/// The principal that a caller is resolved to, or its refusal.
pub open spec fn resolved(acl: AclV, bearer: Option<Seq<char>>) -> Result<PrincipalV, StatusV> {
    if acl.open {
        Ok(anonymous())
    } else {
        match identify(acl, bearer) {
            Ok(token) => Ok(acl.by_token[token]),
            Err(s) => Err(s),
        }
    }
}

/// The characters of an `authorization` header, if there is one.
pub open spec fn header(bearer: Option<&str>) -> Option<Seq<char>> {
    match bearer {
        Some(h) => Some(h@),
        None => None,
    }
}

impl Acl {
    /// In open mode the one principal is anonymous.
    #[verifier::type_invariant]
    spec fn anonymous_is_fresh(self) -> bool {
        self.anonymous@ == anonymous()
    }

    /// A principal that has done nothing yet.
    pub fn make_principal(cfg: PrincipalConfig) -> (r: Principal)
        ensures
            r@ == fresh(cfg@),
    {
        Principal { cfg, held_keys: 0, watchers: 0 }
    }

    fn make_anonymous() -> (r: Principal)
        ensures
            r@ == anonymous(),
    {
        let empty = String::new();
        let mut key_prefixes: Vec<String> = Vec::new();
        key_prefixes.push(String::new());
        let r = Acl::make_principal(
            PrincipalConfig {
                name: "anonymous".to_owned(),
                token: empty,
                key_prefixes,
                can_lock: true,
                can_unlock: true,
                can_extend: true,
                can_watch: true,
                can_admin: true,
                max_keys: 0,
                max_watchers: 0,
            },
        );
        proof {
            assert(r@.cfg.token =~= seq![]);
            assert(r@.cfg.key_prefixes =~= seq![seq![]]);
        }
        r
    }

    /// Open mode: one anonymous principal, all permissions, no quotas.
    pub fn open() -> (r: Self)
        ensures
            r@.open,
            r@.by_token == Map::<Seq<char>, PrincipalV>::empty(),
    {
        let r = Acl { open: true, by_token: Table::new(), anonymous: Acl::make_anonymous() };
        proof {
            assert(r@.by_token =~= Map::empty());
        }
        r
    }

    /// The principals of an ACL document, given how parsing it went. A
    /// principal without a token is refused.
    pub fn from_json(parsed: Result<Vec<PrincipalConfig>, String>) -> (r: Result<Self, Error>)
        ensures
            match parsed {
                Err(m) => r matches Err(e) && e@ == ErrorV::InvalidConfig("bad acl json: "@ + m@),
                Ok(doc) => {
                    let cfgs = doc@.map_values(|c: PrincipalConfig| c@);
                    match r {
                        Ok(acl) => !acl@.open && acl@.by_token == principals_by_token(cfgs)
                            && forall|i: int| !first_without_token(cfgs, i),
                        Err(e) => exists|i: int|
                            first_without_token(cfgs, i) && e@ == ErrorV::InvalidConfig(
                                "principal `"@ + cfgs[i].name + "` has empty token"@,
                            ),
                    }
                },
            },
    {
        let doc = match parsed {
            Ok(doc) => doc,
            Err(m) => {
                return Err(Error::InvalidConfig("bad acl json: ".to_owned().concat(m.as_str())));
            },
        };
        let ghost cfgs = doc@.map_values(|c: PrincipalConfig| c@);
        let ghost all = doc@;
        let mut left = doc;
        let mut by_token: Table<Principal> = Table::new();
        let ghost mut done: int = 0;
        proof {
            assert(cfgs.take(0) =~= seq![]);
            assert(all.skip(0) =~= all);
            assert(by_token@.map_values(|p: Principal| p@) =~= Map::empty());
        }
        while left.len() > 0
            invariant
                parsed matches Ok(doc) && doc@ == all,
                cfgs == all.map_values(|c: PrincipalConfig| c@),
                0 <= done <= cfgs.len(),
                left@ == all.skip(done),
                forall|j: int| 0 <= j < done ==> (#[trigger] cfgs[j]).token.len() > 0,
                by_token@.map_values(|p: Principal| p@) == principals_by_token(cfgs.take(done)),
            decreases left@.len(),
        {
            let cfg = left.remove(0);
            proof {
                assert(cfg@ == cfgs[done]);
                assert(left@ =~= all.skip(done + 1));
            }
            if is_empty(cfg.token.as_str()) {
                proof {
                    assert(first_without_token(cfgs, done));
                }
                return Err(
                    Error::InvalidConfig(
                        "principal `".to_owned().concat(cfg.name.as_str()).concat(
                            "` has empty token",
                        ),
                    ),
                );
            }
            let token = cfg.token.clone();
            let ghost before = by_token@.map_values(|p: Principal| p@);
            let principal = Acl::make_principal(cfg);
            by_token.insert(token, principal);
            proof {
                assert(cfgs.take(done + 1).drop_last() =~= cfgs.take(done));
                assert(cfgs.take(done + 1).last() == cfgs[done]);
                assert(by_token@.map_values(|p: Principal| p@) =~= before.insert(
                    token@,
                    principal@,
                ));
                done = done + 1;
            }
        }
        proof {
            assert(cfgs.take(done) =~= cfgs);
        }
        Ok(Acl { open: false, by_token, anonymous: Acl::make_anonymous() })
    }

    /// The principals of an ACL file, given how reading and parsing it went;
    /// `path` is the file as it is shown to a person.
    pub fn load_file(path: &str, read: Result<Result<Vec<PrincipalConfig>, String>, String>) -> (r:
        Result<Self, Error>)
        ensures
            match read {
                Err(m) => r matches Err(e) && e@ == ErrorV::InvalidConfig(
                    "cannot read acl file "@ + path@ + ": "@ + m@,
                ),
                Ok(parsed) => call_ensures(Acl::from_json, (parsed,), r),
            },
    {
        match read {
            Err(m) => Err(
                Error::InvalidConfig(
                    "cannot read acl file ".to_owned().concat(path).concat(": ").concat(
                        m.as_str(),
                    ),
                ),
            ),
            Ok(parsed) => Acl::from_json(parsed),
        }
    }

    /// The principal of the caller that presents the header `bearer`.
    pub fn resolve(&self, bearer: Option<&str>) -> (r: Result<&Principal, Status>)
        ensures
            match resolved(self@, header(bearer)) {
                Ok(p) => r matches Ok(q) && q@ == p,
                Err(d) => r matches Err(s) && s@ == d,
            },
    {
        proof {
            use_type_invariant(self);
        }
        if self.open {
            return Ok(&self.anonymous);
        }
        let token = match Acl::bearer_token(bearer) {
            Some(token) => token,
            None => {
                return Err(
                    Status::new(Code::Unauthenticated, "missing authorization: Bearer <token>"),
                );
            },
        };
        match self.by_token.get(token.as_str()) {
            Some(p) => Ok(p),
            None => Err(Status::new(Code::Unauthenticated, "unknown bearer token")),
        }
    }

    /// The token of a bearer header.
    fn bearer_token(bearer: Option<&str>) -> (r: Option<String>)
        ensures
            match header(bearer) {
                Some(h) => if "Bearer "@.is_prefix_of(h) {
                    r matches Some(t) && t@ == h.skip("Bearer "@.len() as int)
                } else {
                    r is None
                },
                None => r is None,
            },
    {
        match bearer {
            Some(h) => strip_prefix(h, "Bearer "),
            None => None,
        }
    }

    /// Takes a watcher slot for `key` on behalf of the caller that presents the
    /// header `bearer`.
    pub fn check_watch(&mut self, bearer: Option<&str>, key: &str) -> (r: Result<
        WatcherGuard,
        Status,
    >)
        ensures
            final(self)@.open == old(self)@.open,
            match resolved(old(self)@, header(bearer)) {
                Err(d) => r matches Err(s) && s@ == d && final(self)@ == old(self)@,
                Ok(p) => match watch_verdict(p, key@) {
                    Some(d) => r matches Err(s) && s@ == d && final(self)@ == old(self)@,
                    None => r matches Ok(g) && if old(self)@.open {
                        g.token is None && final(self)@ == old(self)@
                    } else {
                        let token = identify(old(self)@, header(bearer))->Ok_0;
                        &&& g.token matches Some(t) && t@ == token
                        &&& final(self)@.by_token == old(self)@.by_token.insert(token, watched(p))
                    },
                },
            },
    {
        proof {
            use_type_invariant(&*self);
        }
        if self.open {
            return match self.anonymous.may(key, Permission::Watch) {
                Ok(()) => Ok(WatcherGuard { token: None }),
                Err(s) => Err(s),
            };
        }
        let token = match Acl::bearer_token(bearer) {
            Some(token) => token,
            None => {
                return Err(
                    Status::new(Code::Unauthenticated, "missing authorization: Bearer <token>"),
                );
            },
        };
        let ghost before = self@;
        let mut by_token: Table<Principal> = Table::new();
        std::mem::swap(&mut by_token, &mut self.by_token);
        let ghost was = by_token@;
        match by_token.remove(token.as_str()) {
            Some(p) => {
                let mut p = p;
                let ghost old_p = p@;
                let taken = p.check_watch(key);
                let ghost new_p = p@;
                by_token.insert(token.clone(), p);
                proof {
                    assert(by_token@.map_values(|q: Principal| q@) =~= before.by_token.insert(
                        token@,
                        new_p,
                    ));
                    assert(before.by_token.insert(token@, old_p) =~= before.by_token);
                }
                self.by_token = by_token;
                match taken {
                    Ok(()) => Ok(WatcherGuard { token: Some(token) }),
                    Err(s) => Err(s),
                }
            },
            None => {
                proof {
                    assert(by_token@ =~= was);
                }
                self.by_token = by_token;
                Err(Status::new(Code::Unauthenticated, "unknown bearer token"))
            },
        }
    }

    /// Frees the slot of a watcher that is gone.
    pub fn end_watch(&mut self, guard: WatcherGuard)
        ensures
            final(self)@.open == old(self)@.open,
            final(self)@.by_token == (match guard.token {
                Some(t) => slot_freed(old(self)@.by_token, t@),
                None => old(self)@.by_token,
            }),
    {
        proof {
            use_type_invariant(&*self);
        }
        let token = match guard.token {
            Some(t) => t,
            None => {
                return ;
            },
        };
        let ghost before = self@;
        let mut by_token: Table<Principal> = Table::new();
        std::mem::swap(&mut by_token, &mut self.by_token);
        let ghost was = by_token@;
        match by_token.remove(token.as_str()) {
            Some(p) => {
                let mut p = p;
                p.note_watcher_denial();
                let ghost new_p = p@;
                let ghost name = token@;
                by_token.insert(token, p);
                proof {
                    assert(by_token@.map_values(|q: Principal| q@) =~= before.by_token.insert(
                        name,
                        new_p,
                    ));
                }
            },
            None => {
                proof {
                    assert(by_token@ =~= was);
                }
            },
        }
        self.by_token = by_token;
    }

    /// A line of the audit trail: refusals and administration must be
    /// attributable.
    pub fn audit(principal: &str, action: &str, key: &str, outcome: &str) -> (r: AuditLine)
        ensures
            r@ == (AuditLineV {
                principal: principal@,
                action: action@,
                key: key@,
                outcome: outcome@,
            }),
    {
        AuditLine {
            principal: principal.to_owned(),
            action: action.to_owned(),
            key: key.to_owned(),
            outcome: outcome.to_owned(),
        }
    }
}

/// A permission on some key is a permission on every key that begins with it:
/// scopes are closed under longer keys.
pub proof fn scopes_cover_longer_keys(c: PrincipalConfigV, key: Seq<char>, more: Seq<char>)
    requires
        in_scope(c, key),
    ensures
        in_scope(c, key + more),
{
    let i = choose|i: int|
        0 <= i < c.key_prefixes.len() && (#[trigger] c.key_prefixes[i]).is_prefix_of(key);
    let p = c.key_prefixes[i];
    assert(p =~= (key + more).subrange(0, p.len() as int));
    assert(c.key_prefixes[i].is_prefix_of(key + more));
}

/// Open mode lets everyone do everything.
pub proof fn open_mode_denies_nothing(key: Seq<char>, p: Permission)
    ensures
        denial(anonymous().cfg, p, key) is None,
{
    let c = anonymous().cfg;
    assert(c.key_prefixes[0] =~= key.subrange(0, 0));
    assert(c.key_prefixes[0].is_prefix_of(key));
}

/// With principals configured, only known tokens get in: whoever is resolved
/// presented the token of a configured principal, and is that principal.
pub proof fn only_known_tokens_get_in(acl: AclV, bearer: Option<Seq<char>>)
    requires
        !acl.open,
        resolved(acl, bearer) is Ok,
    ensures
        exists|token: Seq<char>| #[trigger]
            acl.by_token.dom().contains(token) && bearer == Some("Bearer "@ + token)
                && resolved(acl, bearer) == Ok::<PrincipalV, StatusV>(acl.by_token[token]),
{
    let h = bearer->0;
    let token = h.skip("Bearer "@.len() as int);
    assert(h =~= "Bearer "@ + token);
    assert(acl.by_token.dom().contains(token));
}

/// No principal touches a key outside its prefixes, whatever it is permitted.
pub proof fn permissions_end_at_the_scope(p: PrincipalV, permission: Permission, key: Seq<char>)
    requires
        !in_scope(p.cfg, key),
    ensures
        denial(p.cfg, permission, key) matches Some(s) && s.code == Code::PermissionDenied,
        lock_verdict(p, key) is Some,
        watch_verdict(p, key) is Some,
{
}

/// What happens to the watchers of a principal.
pub enum WatchOp {
    /// It asks to watch a key.
    Watch(Seq<char>),
    /// One of its watchers leaves, if it has one.
    Leave,
}

/// A principal after `ops`.
pub open spec fn after_watch_ops(p: PrincipalV, ops: Seq<WatchOp>) -> PrincipalV
    decreases ops.len(),
{
    if ops.len() == 0 {
        p
    } else {
        let before = after_watch_ops(p, ops.drop_last());
        match ops.last() {
            WatchOp::Watch(key) => if watch_verdict(before, key) is None {
                watched(before)
            } else {
                before
            },
            WatchOp::Leave => if before.watchers > 0 {
                unwatched(before)
            } else {
                before
            },
        }
    }
}

/// No principal ever has more watchers than its ceiling, however they come and
/// go.
pub proof fn watcher_quotas_are_never_exceeded(c: PrincipalConfigV, ops: Seq<WatchOp>)
    requires
        c.max_watchers > 0,
    ensures
        after_watch_ops(fresh(c), ops).cfg == c,
        after_watch_ops(fresh(c), ops).watchers <= c.max_watchers,
    decreases ops.len(),
{
    if ops.len() > 0 {
        watcher_quotas_are_never_exceeded(c, ops.drop_last());
    }
}

/// Every denial is attributable: whatever a known principal is refused, for want
/// of a permission or of quota, comes with a line of the audit trail that names
/// the principal and the key.
pub proof fn denials_are_attributable(p: PrincipalV, permission: Permission, key: Seq<char>)
    ensures
        denial(p.cfg, permission, key) matches Some(s) ==> s.audit == Some(
            denied_line(p.cfg.name, action_of(permission), key),
        ),
        lock_verdict(p, key) matches Some(s) ==> s.audit == Some(
            denied_line(p.cfg.name, action_of(Permission::Lock), key),
        ),
        watch_verdict(p, key) matches Some(s) ==> s.audit == Some(
            denied_line(p.cfg.name, action_of(Permission::Watch), key),
        ),
{
}

} // verus!
