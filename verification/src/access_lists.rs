//! Address blacklists and whitelists in two scopes: global lists managed by
//! the admin, and per-creator lists managed by each creator. An active
//! blacklist entry in either scope always rejects; otherwise, in a scope
//! with whitelist-only mode, the subject must be whitelisted there.
use vstd::prelude::*;
use crate::common::{IdLists, ids_under, without_entry};
use crate::table::{Table, pair, pair_key, get_or};

verus! {

/// Which lists an operation applies to.
#[derive(Clone, Copy, Debug, PartialEq, Eq, Structural)]
pub enum ListScope {
    /// The compliance lists of the admin.
    Global,
    /// The lists of one creator.
    Creator(u64),
}

/// Errors of the access lists.
#[derive(Clone, Copy, Debug, PartialEq, Eq, Structural)]
pub enum AccessListError {
    Unauthorized,
    NoAdmin,
    Blacklisted,
    NotWhitelisted,
    InvalidDuration,
    EntryNotFound,
}

impl AccessListError {
    /// The contract error code.
    pub fn code(&self) -> (c: u32)
        ensures
            c == match *self {
                AccessListError::Unauthorized => 900u32,
                AccessListError::NoAdmin => 901,
                AccessListError::Blacklisted => 902,
                AccessListError::NotWhitelisted => 903,
                AccessListError::InvalidDuration => 904,
                AccessListError::EntryNotFound => 905,
            },
    {
        match self {
            AccessListError::Unauthorized => 900,
            AccessListError::NoAdmin => 901,
            AccessListError::Blacklisted => 902,
            AccessListError::NotWhitelisted => 903,
            AccessListError::InvalidDuration => 904,
            AccessListError::EntryNotFound => 905,
        }
    }
}

/// A blacklist entry; `expires_at == 0` blocks for good.
#[derive(Debug)]
pub struct BlockEntry {
    pub subject: u64,
    pub reason: String,
    pub created_at: u64,
    pub expires_at: u64,
}

/// State of the access lists.
pub struct AccessLists {
    pub admin: Option<u64>,
    /// Global blacklist entries by subject.
    pub global_blocks: Table<BlockEntry>,
    /// Creator blacklist entries by `pair(creator, subject)`.
    pub creator_blocks: Table<BlockEntry>,
    /// Global whitelist flags by subject.
    pub global_allowed: Table<bool>,
    /// Creator whitelist flags by `pair(creator, subject)`.
    pub creator_allowed: Table<bool>,
    pub global_whitelist_mode: bool,
    /// Whitelist-only mode by creator.
    pub creator_whitelist_mode: Table<bool>,
    /// Blacklisted subjects by `scope_key(scope)`.
    pub blacklist_members: IdLists,
    /// Whitelisted subjects by `scope_key(scope)`.
    pub whitelist_members: IdLists,
    /// What the lists published, oldest first.
    pub events: Vec<AccessListEvent>,
}

/// What the access lists publish.
#[derive(Clone, Debug, PartialEq, Eq)]
pub enum AccessListEvent {
    /// `al_block`: `subject` was blocked in `scope` until `expires_at`.
    Blocked { scope: ListScope, subject: u64, expires_at: u64, reason: String },
    /// `al_unblk`: `subject` was unblocked in `scope`.
    Unblocked { scope: ListScope, subject: u64 },
    /// `al_allow`: `subject` was whitelisted in `scope`.
    Allowed { scope: ListScope, subject: u64 },
    /// `al_unallw`: `subject` left the whitelist of `scope`.
    Disallowed { scope: ListScope, subject: u64 },
    /// `al_mode`: whitelist-only mode of `scope` was set to `enabled`.
    ModeSet { scope: ListScope, enabled: bool },
}

/// The member-list key of a scope: 0 for the global lists, `creator + 1`
/// for a creator's.
pub open spec fn scope_key(scope: ListScope) -> u128 {
    match scope {
        ListScope::Global => 0,
        ListScope::Creator(c) => (c + 1) as u128,
    }
}

impl AccessLists {
    /// Empty lists, with `admin` managing the global scope.
    pub fn new(admin: Option<u64>) -> (a: AccessLists)
        ensures
            a.admin == admin,
            a.global_blocks@ == Map::<u128, BlockEntry>::empty(),
            a.creator_blocks@ == Map::<u128, BlockEntry>::empty(),
            a.global_allowed@ == Map::<u128, bool>::empty(),
            a.creator_allowed@ == Map::<u128, bool>::empty(),
            !a.global_whitelist_mode,
            a.creator_whitelist_mode@ == Map::<u128, bool>::empty(),
            a.blacklist_members.log@.len() == 0,
            a.whitelist_members.log@.len() == 0,
            a.events@.len() == 0,
    {
        AccessLists {
            admin,
            global_blocks: Table::new(),
            creator_blocks: Table::new(),
            global_allowed: Table::new(),
            creator_allowed: Table::new(),
            global_whitelist_mode: false,
            creator_whitelist_mode: Table::new(),
            blacklist_members: IdLists::new(),
            whitelist_members: IdLists::new(),
            events: Vec::new(),
        }
    }

    /// The blacklist entry of `subject` in `scope`, if any.
    pub open spec fn block_of(&self, scope: ListScope, subject: u64) -> Option<BlockEntry> {
        match scope {
            ListScope::Global => if self.global_blocks@.contains_key(subject as u128) {
                Some(self.global_blocks@[subject as u128])
            } else {
                None
            },
            ListScope::Creator(c) => if self.creator_blocks@.contains_key(pair(c, subject)) {
                Some(self.creator_blocks@[pair(c, subject)])
            } else {
                None
            },
        }
    }

    /// True if `subject` is blocked in `scope` at `now`.
    pub open spec fn blocked(&self, now: u64, scope: ListScope, subject: u64) -> bool {
        match self.block_of(scope, subject) {
            Some(e) => e.expires_at == 0 || now < e.expires_at,
            None => false,
        }
    }

    /// True if `subject` is whitelisted in `scope`.
    pub open spec fn listed(&self, scope: ListScope, subject: u64) -> bool {
        match scope {
            ListScope::Global => get_or(self.global_allowed@, subject as u128, false),
            ListScope::Creator(c) => get_or(self.creator_allowed@, pair(c, subject), false),
        }
    }

    /// True if `scope` is in whitelist-only mode.
    pub open spec fn whitelist_only(&self, scope: ListScope) -> bool {
        match scope {
            ListScope::Global => self.global_whitelist_mode,
            ListScope::Creator(c) => get_or(self.creator_whitelist_mode@, c as u128, false),
        }
    }

    /// Why `subject` may not tip `creator` at `now`, if it may not.
    pub open spec fn denial(&self, now: u64, creator: u64, subject: u64) -> Option<AccessListError> {
        let cs = ListScope::Creator(creator);
        if self.blocked(now, ListScope::Global, subject) || self.blocked(now, cs, subject) {
            Some(AccessListError::Blacklisted)
        } else if self.whitelist_only(ListScope::Global) && !self.listed(ListScope::Global, subject) {
            Some(AccessListError::NotWhitelisted)
        } else if self.whitelist_only(cs) && !self.listed(cs, subject) {
            Some(AccessListError::NotWhitelisted)
        } else {
            None
        }
    }

    /// Why `caller` may not manage `scope`, if it may not.
    pub open spec fn scope_error(&self, caller: u64, scope: ListScope) -> Option<AccessListError> {
        match scope {
            ListScope::Global => match self.admin {
                None => Some(AccessListError::NoAdmin),
                Some(a) => if a != caller { Some(AccessListError::Unauthorized) } else { None },
            },
            ListScope::Creator(c) => if c != caller { Some(AccessListError::Unauthorized) } else { None },
        }
    }

    /// Checks that `caller` manages `scope`: the admin for the global
    /// scope, the creator for a creator's.
    pub fn authorize_scope(&self, caller: u64, scope: ListScope) -> (r: Result<(), AccessListError>)
        ensures
            r is Err <==> self.scope_error(caller, scope) is Some,
            r matches Err(e) ==> Some(e) == self.scope_error(caller, scope),
    {
        match scope {
            ListScope::Global => match self.admin {
                None => Err(AccessListError::NoAdmin),
                Some(a) => if a != caller {
                    Err(AccessListError::Unauthorized)
                } else {
                    Ok(())
                },
            },
            ListScope::Creator(c) => if c != caller {
                Err(AccessListError::Unauthorized)
            } else {
                Ok(())
            },
        }
    }

    fn scope_key_of(scope: ListScope) -> (k: u128)
        ensures
            k == scope_key(scope),
    {
        match scope {
            ListScope::Global => 0,
            ListScope::Creator(c) => c as u128 + 1,
        }
    }

    /// Blocks `subject` in `scope` at `now` for `duration` seconds (0 for
    /// good), replacing any earlier entry, and lists it as a member.
    pub fn add_to_blacklist(
        &mut self,
        now: u64,
        caller: u64,
        scope: ListScope,
        subject: u64,
        reason: String,
        duration: u64,
    ) -> (r: Result<(), AccessListError>)
        ensures
            ({
                let e = if self_scope_error(*old(self), caller, scope) is Some {
                    self_scope_error(*old(self), caller, scope)
                } else if duration != 0 && now + duration > u64::MAX {
                    Some(AccessListError::InvalidDuration)
                } else {
                    None
                };
                let entry = BlockEntry {
                    subject,
                    reason,
                    created_at: now,
                    expires_at: if duration == 0 { 0 } else { (now + duration) as u64 },
                };
                &&& r is Err <==> e is Some
                &&& r matches Err(x) ==> Some(x) == e && *final(self) == *old(self)
                &&& r is Ok ==> {
                    &&& match scope {
                        ListScope::Global => final(self).global_blocks@ == old(self).global_blocks@.insert(
                            subject as u128,
                            entry,
                        ) && final(self).creator_blocks@ == old(self).creator_blocks@,
                        ListScope::Creator(c) => final(self).creator_blocks@ == old(self).creator_blocks@.insert(
                            pair(c, subject),
                            entry,
                        ) && final(self).global_blocks@ == old(self).global_blocks@,
                    }
                    &&& final(self).blacklist_members.log@ == if old(self).blacklist_members.log@.contains(
                        (scope_key(scope), subject),
                    ) {
                        old(self).blacklist_members.log@
                    } else {
                        old(self).blacklist_members.log@.push((scope_key(scope), subject))
                    }
                    &&& final(self).events@ == old(self).events@.push(
                        AccessListEvent::Blocked { scope, subject, expires_at: entry.expires_at, reason: entry.reason },
                    )
                    &&& *final(self) == (AccessLists {
                        global_blocks: final(self).global_blocks,
                        creator_blocks: final(self).creator_blocks,
                        blacklist_members: final(self).blacklist_members,
                        events: final(self).events,
                        ..*old(self)
                    })
                }
            }),
    {
        match self.authorize_scope(caller, scope) {
            Ok(()) => {},
            Err(e) => {
                return Err(e);
            },
        }
        let expires_at = if duration == 0 {
            0
        } else {
            match now.checked_add(duration) {
                Some(t) => t,
                None => {
                    return Err(AccessListError::InvalidDuration);
                },
            }
        };
        let event = AccessListEvent::Blocked { scope, subject, expires_at, reason: reason.clone() };
        let entry = BlockEntry { subject, reason, created_at: now, expires_at };
        match scope {
            ListScope::Global => self.global_blocks.set(subject as u128, entry),
            ListScope::Creator(c) => self.creator_blocks.set(pair_key(c, subject), entry),
        }
        self.blacklist_members.add(Self::scope_key_of(scope), subject);
        self.events.push(event);
        Ok(())
    }

    /// Unblocks `subject` in `scope`; it must be blocked there.
    pub fn remove_from_blacklist(&mut self, caller: u64, scope: ListScope, subject: u64) -> (r: Result<
        (),
        AccessListError,
    >)
        ensures
            ({
                let e = if self_scope_error(*old(self), caller, scope) is Some {
                    self_scope_error(*old(self), caller, scope)
                } else if old(self).block_of(scope, subject) is None {
                    Some(AccessListError::EntryNotFound)
                } else {
                    None
                };
                &&& r is Err <==> e is Some
                &&& r matches Err(x) ==> Some(x) == e && *final(self) == *old(self)
                &&& r is Ok ==> {
                    &&& match scope {
                        ListScope::Global => final(self).global_blocks@ == old(self).global_blocks@.remove(
                            subject as u128,
                        ) && final(self).creator_blocks@ == old(self).creator_blocks@,
                        ListScope::Creator(c) => final(self).creator_blocks@ == old(self).creator_blocks@.remove(
                            pair(c, subject),
                        ) && final(self).global_blocks@ == old(self).global_blocks@,
                    }
                    &&& final(self).blacklist_members.log@ == without_entry(
                        old(self).blacklist_members.log@,
                        (scope_key(scope), subject),
                    )
                    &&& final(self).events@ == old(self).events@.push(AccessListEvent::Unblocked { scope, subject })
                    &&& *final(self) == (AccessLists {
                        global_blocks: final(self).global_blocks,
                        creator_blocks: final(self).creator_blocks,
                        blacklist_members: final(self).blacklist_members,
                        events: final(self).events,
                        ..*old(self)
                    })
                }
            }),
    {
        match self.authorize_scope(caller, scope) {
            Ok(()) => {},
            Err(e) => {
                return Err(e);
            },
        }
        match scope {
            ListScope::Global => {
                if !self.global_blocks.has(subject as u128) {
                    return Err(AccessListError::EntryNotFound);
                }
                self.global_blocks.remove(subject as u128);
            },
            ListScope::Creator(c) => {
                if !self.creator_blocks.has(pair_key(c, subject)) {
                    return Err(AccessListError::EntryNotFound);
                }
                self.creator_blocks.remove(pair_key(c, subject));
            },
        }
        self.blacklist_members.remove(Self::scope_key_of(scope), subject);
        self.events.push(AccessListEvent::Unblocked { scope, subject });
        Ok(())
    }

    /// Whitelists `subject` in `scope`.
    pub fn add_to_whitelist(&mut self, caller: u64, scope: ListScope, subject: u64) -> (r: Result<
        (),
        AccessListError,
    >)
        ensures
            r is Err <==> self_scope_error(*old(self), caller, scope) is Some,
            r matches Err(x) ==> Some(x) == self_scope_error(*old(self), caller, scope) && *final(self)
                == *old(self),
            r is Ok ==> {
                &&& match scope {
                    ListScope::Global => final(self).global_allowed@ == old(self).global_allowed@.insert(
                        subject as u128,
                        true,
                    ) && final(self).creator_allowed@ == old(self).creator_allowed@,
                    ListScope::Creator(c) => final(self).creator_allowed@ == old(self).creator_allowed@.insert(
                        pair(c, subject),
                        true,
                    ) && final(self).global_allowed@ == old(self).global_allowed@,
                }
                &&& final(self).whitelist_members.log@ == if old(self).whitelist_members.log@.contains(
                    (scope_key(scope), subject),
                ) {
                    old(self).whitelist_members.log@
                } else {
                    old(self).whitelist_members.log@.push((scope_key(scope), subject))
                }
                &&& final(self).events@ == old(self).events@.push(AccessListEvent::Allowed { scope, subject })
                &&& *final(self) == (AccessLists {
                    global_allowed: final(self).global_allowed,
                    creator_allowed: final(self).creator_allowed,
                    whitelist_members: final(self).whitelist_members,
                    events: final(self).events,
                    ..*old(self)
                })
            },
    {
        match self.authorize_scope(caller, scope) {
            Ok(()) => {},
            Err(e) => {
                return Err(e);
            },
        }
        match scope {
            ListScope::Global => self.global_allowed.set(subject as u128, true),
            ListScope::Creator(c) => self.creator_allowed.set(pair_key(c, subject), true),
        }
        self.whitelist_members.add(Self::scope_key_of(scope), subject);
        self.events.push(AccessListEvent::Allowed { scope, subject });
        Ok(())
    }

    /// Removes `subject` from the whitelist of `scope`.
    pub fn remove_from_whitelist(&mut self, caller: u64, scope: ListScope, subject: u64) -> (r: Result<
        (),
        AccessListError,
    >)
        ensures
            r is Err <==> self_scope_error(*old(self), caller, scope) is Some,
            r matches Err(x) ==> Some(x) == self_scope_error(*old(self), caller, scope) && *final(self)
                == *old(self),
            r is Ok ==> {
                &&& match scope {
                    ListScope::Global => final(self).global_allowed@ == old(self).global_allowed@.remove(
                        subject as u128,
                    ) && final(self).creator_allowed@ == old(self).creator_allowed@,
                    ListScope::Creator(c) => final(self).creator_allowed@ == old(self).creator_allowed@.remove(
                        pair(c, subject),
                    ) && final(self).global_allowed@ == old(self).global_allowed@,
                }
                &&& final(self).whitelist_members.log@ == without_entry(
                    old(self).whitelist_members.log@,
                    (scope_key(scope), subject),
                )
                &&& final(self).events@ == old(self).events@.push(AccessListEvent::Disallowed { scope, subject })
                &&& *final(self) == (AccessLists {
                    global_allowed: final(self).global_allowed,
                    creator_allowed: final(self).creator_allowed,
                    whitelist_members: final(self).whitelist_members,
                    events: final(self).events,
                    ..*old(self)
                })
            },
    {
        match self.authorize_scope(caller, scope) {
            Ok(()) => {},
            Err(e) => {
                return Err(e);
            },
        }
        match scope {
            ListScope::Global => self.global_allowed.remove(subject as u128),
            ListScope::Creator(c) => self.creator_allowed.remove(pair_key(c, subject)),
        }
        self.whitelist_members.remove(Self::scope_key_of(scope), subject);
        self.events.push(AccessListEvent::Disallowed { scope, subject });
        Ok(())
    }

    /// Turns whitelist-only mode of `scope` on or off.
    pub fn set_whitelist_mode(&mut self, caller: u64, scope: ListScope, enabled: bool) -> (r: Result<
        (),
        AccessListError,
    >)
        ensures
            r is Err <==> self_scope_error(*old(self), caller, scope) is Some,
            r matches Err(x) ==> Some(x) == self_scope_error(*old(self), caller, scope) && *final(self)
                == *old(self),
            r is Ok ==> final(self).events@ == old(self).events@.push(AccessListEvent::ModeSet { scope, enabled }),
            r is Ok ==> match scope {
                ListScope::Global => *final(self) == (AccessLists {
                    global_whitelist_mode: enabled,
                    events: final(self).events,
                    ..*old(self)
                }),
                ListScope::Creator(c) => final(self).creator_whitelist_mode@
                    == old(self).creator_whitelist_mode@.insert(c as u128, enabled) && *final(self) == (
                AccessLists {
                    creator_whitelist_mode: final(self).creator_whitelist_mode,
                    events: final(self).events,
                    ..*old(self)
                }),
            },
    {
        match self.authorize_scope(caller, scope) {
            Ok(()) => {},
            Err(e) => {
                return Err(e);
            },
        }
        match scope {
            ListScope::Global => {
                self.global_whitelist_mode = enabled;
            },
            ListScope::Creator(c) => self.creator_whitelist_mode.set(c as u128, enabled),
        }
        self.events.push(AccessListEvent::ModeSet { scope, enabled });
        Ok(())
    }

    /// The blacklist entry of `subject` in `scope`, if any.
    pub fn get_block_entry(&self, scope: ListScope, subject: u64) -> (r: Option<&BlockEntry>)
        ensures
            match self.block_of(scope, subject) {
                Some(e) => r == Some(&e),
                None => r is None,
            },
    {
        match scope {
            ListScope::Global => self.global_blocks.get_ref(subject as u128),
            ListScope::Creator(c) => self.creator_blocks.get_ref(pair_key(c, subject)),
        }
    }

    /// Whether `subject` is blocked in `scope` at `now`.
    pub fn is_blacklisted(&self, now: u64, scope: ListScope, subject: u64) -> (r: bool)
        ensures
            r == self.blocked(now, scope, subject),
    {
        match self.get_block_entry(scope, subject) {
            Some(entry) => entry.expires_at == 0 || now < entry.expires_at,
            None => false,
        }
    }

    /// Whether `subject` is whitelisted in `scope`.
    pub fn is_whitelisted(&self, scope: ListScope, subject: u64) -> (r: bool)
        ensures
            r == self.listed(scope, subject),
    {
        let flag = match scope {
            ListScope::Global => self.global_allowed.get(subject as u128),
            ListScope::Creator(c) => self.creator_allowed.get(pair_key(c, subject)),
        };
        match flag {
            Some(b) => b,
            None => false,
        }
    }

    /// Whether `scope` is in whitelist-only mode.
    pub fn is_whitelist_mode(&self, scope: ListScope) -> (r: bool)
        ensures
            r == self.whitelist_only(scope),
    {
        match scope {
            ListScope::Global => self.global_whitelist_mode,
            ListScope::Creator(c) => match self.creator_whitelist_mode.get(c as u128) {
                Some(b) => b,
                None => false,
            },
        }
    }

    /// The subjects blacklisted in `scope`, in listing order.
    pub fn get_blacklist(&self, scope: ListScope) -> (r: Vec<u64>)
        ensures
            r@ == ids_under(self.blacklist_members.log@, scope_key(scope)),
    {
        self.blacklist_members.get(Self::scope_key_of(scope))
    }

    /// The subjects whitelisted in `scope`, in listing order.
    pub fn get_whitelist(&self, scope: ListScope) -> (r: Vec<u64>)
        ensures
            r@ == ids_under(self.whitelist_members.log@, scope_key(scope)),
    {
        self.whitelist_members.get(Self::scope_key_of(scope))
    }

    /// Checks that `subject` may tip `creator` at `now`.
    pub fn check_allowed(&self, now: u64, creator: u64, subject: u64) -> (r: Result<(), AccessListError>)
        ensures
            r is Err <==> self.denial(now, creator, subject) is Some,
            r matches Err(e) ==> Some(e) == self.denial(now, creator, subject),
    {
        let cs = ListScope::Creator(creator);
        if self.is_blacklisted(now, ListScope::Global, subject) || self.is_blacklisted(now, cs, subject) {
            return Err(AccessListError::Blacklisted);
        }
        if self.is_whitelist_mode(ListScope::Global) && !self.is_whitelisted(ListScope::Global, subject) {
            return Err(AccessListError::NotWhitelisted);
        }
        if self.is_whitelist_mode(cs) && !self.is_whitelisted(cs, subject) {
            return Err(AccessListError::NotWhitelisted);
        }
        Ok(())
    }

    /// Whether `subject` may tip `creator` at `now`.
    pub fn is_allowed(&self, now: u64, creator: u64, subject: u64) -> (r: bool)
        ensures
            r == (self.denial(now, creator, subject) is None),
    {
        let cs = ListScope::Creator(creator);
        if self.is_blacklisted(now, ListScope::Global, subject) || self.is_blacklisted(now, cs, subject) {
            return false;
        }
        if self.is_whitelist_mode(ListScope::Global) && !self.is_whitelisted(ListScope::Global, subject) {
            return false;
        }
        if self.is_whitelist_mode(cs) && !self.is_whitelisted(cs, subject) {
            return false;
        }
        true
    }
}

/// Why `caller` may not manage `scope` of `a`, if it may not.
pub open spec fn self_scope_error(a: AccessLists, caller: u64, scope: ListScope) -> Option<AccessListError> {
    a.scope_error(caller, scope)
}

/// A subject blocked in the global scope may tip no creator, while the
/// block lasts.
pub proof fn law_global_block_applies_everywhere(a: AccessLists, now: u64, creator: u64, subject: u64)
    requires
        a.blocked(now, ListScope::Global, subject),
    ensures
        a.denial(now, creator, subject) == Some(AccessListError::Blacklisted),
{
}

/// An active block in either scope rejects, whatever the whitelists say.
pub proof fn law_block_precedes_whitelist(a: AccessLists, now: u64, creator: u64, subject: u64)
    requires
        a.blocked(now, ListScope::Creator(creator), subject),
    ensures
        a.denial(now, creator, subject) == Some(AccessListError::Blacklisted),
{
}

/// A temporary block lapses at its expiry: from then on it no longer
/// blocks.
pub proof fn law_temporary_block_lapses(a: AccessLists, now: u64, scope: ListScope, subject: u64)
    requires
        a.block_of(scope, subject) is Some,
        a.block_of(scope, subject).unwrap().expires_at != 0,
        now >= a.block_of(scope, subject).unwrap().expires_at,
    ensures
        !a.blocked(now, scope, subject),
{
}

} // verus!
