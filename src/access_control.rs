//! Device identity and access control: device IDs, one-shot access codes,
//! connection requests and the authorizations they grant, and unattended
//! access by credential.
//!
//! Instants are whole seconds since the Unix epoch, handed in by the caller.

use vstd::prelude::*;
use crate::crypto::{argon2_hash, argon2_verifies, argon2_verify, is_uuid_v4_text, new_uuid_v4, random_below};
use crate::error::CoreError;
use crate::text::digit_str;
use crate::table::{lemma_prefix_extend, lemma_prefix_unique, string_views, Table};

verus! {

/// How many random IDs are drawn before giving up on finding a fresh one.
pub const MAX_ID_DRAWS: u32 = 8;

/// Lifetime of an access code in seconds (10 minutes).
pub const ACCESS_CODE_EXPIRATION_SECS: u64 = 600;

/// What a remote device may do.
#[derive(Debug, Clone, Copy, PartialEq, Eq, Structural)]
pub enum Permission {
    ViewScreen,
    InputControl,
    FileTransfer,
    Clipboard,
    AudioCapture,
    /// Stands for all of the above.
    FullControl,
}

/// The permissions that full control stands for.
pub open spec fn full_control_set() -> Seq<Permission> {
    seq![
        Permission::ViewScreen,
        Permission::InputControl,
        Permission::FileTransfer,
        Permission::Clipboard,
        Permission::AudioCapture,
    ]
}

impl Permission {
    /// The permissions that full control stands for.
    pub fn expand_full_control() -> (r: Vec<Permission>)
        ensures
            r@ == full_control_set(),
    {
        let mut v: Vec<Permission> = Vec::new();
        v.push(Permission::ViewScreen);
        v.push(Permission::InputControl);
        v.push(Permission::FileTransfer);
        v.push(Permission::Clipboard);
        v.push(Permission::AudioCapture);
        assert(v@ =~= full_control_set());
        v
    }
}

/// How a device was authorized.
#[derive(Debug, Clone, Copy, PartialEq, Eq, Structural)]
pub enum AuthorizationType {
    AccessCode,
    AccountBinding,
    UnattendedAccess,
}

/// A one-shot access code.
#[derive(Debug, Clone)]
pub struct AccessCode {
    /// Six decimal digits.
    pub code: String,
    /// The device that issued the code.
    pub device_id: String,
    pub created_at: u64,
    /// Lifetime in seconds.
    pub expires_in: u64,
    pub permissions: Vec<Permission>,
    pub used: bool,
}

/// Whether a code has outlived its lifetime at `now`.
pub open spec fn code_expired(c: AccessCode, now: u64) -> bool {
    now > c.created_at && now - c.created_at > c.expires_in
}

/// Whether a code can still be used at `now`.
pub open spec fn code_valid(c: AccessCode, now: u64) -> bool {
    !code_expired(c, now) && !c.used
}

/// Two access codes hold the same contents.
pub open spec fn same_code(a: AccessCode, b: AccessCode) -> bool {
    &&& a.code@ == b.code@
    &&& a.device_id@ == b.device_id@
    &&& a.created_at == b.created_at
    &&& a.expires_in == b.expires_in
    &&& a.permissions@ == b.permissions@
    &&& a.used == b.used
}

/// Whether a text is six decimal digits.
pub open spec fn is_six_digit_code(s: Seq<char>) -> bool {
    s.len() == 6 && forall|i: int| 0 <= i < 6 ==> '0' <= #[trigger] s[i] && s[i] <= '9'
}

/// A copy of a list of permissions.
pub fn copy_permissions(v: &Vec<Permission>) -> (r: Vec<Permission>)
    ensures
        r@ == v@,
{
    let mut out: Vec<Permission> = Vec::new();
    let mut i: usize = 0;
    while i < v.len()
        invariant
            i <= v@.len(),
            out@ == v@.subrange(0, i as int),
        decreases v@.len() - i,
    {
        out.push(v[i]);
        i = i + 1;
    }
    assert(out@ =~= v@);
    out
}

impl AccessCode {
    /// Whether the code has outlived its lifetime at `now`.
    pub fn is_expired(&self, now: u64) -> (r: bool)
        ensures
            r == code_expired(*self, now),
    {
        now > self.created_at && now - self.created_at > self.expires_in
    }

    /// Whether the code is neither expired nor used at `now`.
    pub fn is_valid(&self, now: u64) -> (r: bool)
        ensures
            r == code_valid(*self, now),
    {
        !self.is_expired(now) && !self.used
    }

    /// Seconds left before the code expires, zero once it has.
    pub fn remaining_seconds(&self, now: u64) -> (r: u64)
        ensures
            now >= self.created_at && now - self.created_at < self.expires_in ==> r == self.expires_in - (now
                - self.created_at),
            now < self.created_at ==> r == self.expires_in,
            now >= self.created_at && now - self.created_at >= self.expires_in ==> r == 0,
    {
        let elapsed = if now > self.created_at {
            now - self.created_at
        } else {
            0
        };
        if elapsed >= self.expires_in {
            0
        } else {
            self.expires_in - elapsed
        }
    }

    /// A field-by-field copy.
    pub fn duplicate(&self) -> (r: Self)
        ensures
            same_code(r, *self),
    {
        AccessCode {
            code: self.code.clone(),
            device_id: self.device_id.clone(),
            created_at: self.created_at,
            expires_in: self.expires_in,
            permissions: copy_permissions(&self.permissions),
            used: self.used,
        }
    }
}

/// A code of the standard lifetime is invalid once older than 600 seconds or
/// once used, and valid while fresh and unused.
pub proof fn lemma_code_validity(c: AccessCode, now: u64)
    requires
        c.expires_in == ACCESS_CODE_EXPIRATION_SECS,
    ensures
        now > c.created_at + 600 ==> !code_valid(c, now),
        c.used ==> !code_valid(c, now),
        !c.used && now <= c.created_at + 600 ==> code_valid(c, now),
{
}

/// An authorization granted to a remote device.
#[derive(Debug, Clone)]
pub struct DeviceAuthorization {
    pub device_id: String,
    pub device_name: String,
    pub auth_type: AuthorizationType,
    pub permissions: Vec<Permission>,
    pub authorized_at: u64,
    pub expires_at: Option<u64>,
    /// Goes from true to false only.
    pub active: bool,
}

/// Two connection requests hold the same contents.
pub open spec fn same_request(a: ConnectionRequest, b: ConnectionRequest) -> bool {
    &&& a.request_id@ == b.request_id@
    &&& a.from_device_id@ == b.from_device_id@
    &&& a.from_device_name@ == b.from_device_name@
    &&& a.requested_permissions@ == b.requested_permissions@
    &&& a.access_code == b.access_code
    &&& a.requested_at == b.requested_at
}

/// A connection request from a remote device.
#[derive(Debug, Clone)]
pub struct ConnectionRequest {
    pub request_id: String,
    pub from_device_id: String,
    pub from_device_name: String,
    pub requested_permissions: Vec<Permission>,
    pub access_code: Option<String>,
    pub requested_at: u64,
}

/// The answer to a connection request.
#[derive(Debug, Clone)]
pub struct ConnectionResponse {
    pub request_id: String,
    pub accepted: bool,
    pub granted_permissions: Vec<Permission>,
    pub rejection_reason: Option<String>,
}

/// This device's registration.
#[derive(Debug, Clone)]
pub struct DeviceRegistration {
    pub device_id: String,
    pub device_name: String,
    pub platform: String,
    pub version: String,
    pub registered_at: u64,
    pub last_seen: u64,
    pub unattended_access_enabled: bool,
    /// Argon2 hash, in PHC text form, of the unattended-access credential.
    pub unattended_password_hash: Option<String>,
}

/// Whether a registration admits `password` for unattended access.
pub open spec fn unattended_accepts(reg: Option<DeviceRegistration>, password: Seq<char>) -> bool {
    match reg {
        Some(r) => r.unattended_access_enabled && match r.unattended_password_hash {
            Some(h) => argon2_verifies(password, h@),
            None => false,
        },
        None => false,
    }
}

/// Six decimal digits of `n`, with leading zeros.
fn six_digits(n: u32) -> (r: String)
    ensures
        is_six_digit_code(r@),
{
    let mut out = String::new();
    let mut divisor: u32 = 100_000;
    let mut k: usize = 0;
    while k < 6
        invariant
            k <= 6,
            out@.len() == k,
            forall|i: int| 0 <= i < k ==> '0' <= #[trigger] out@[i] && out@[i] <= '9',
            divisor > 0,
        decreases 6 - k,
    {
        let d = (n / divisor) % 10;
        let s = digit_str(d);
        let ghost before = out@;
        out.append(s);
        assert(out@ == before + s@);
        assert(out@[k as int] == s@[0]);
        if divisor >= 10 {
            divisor = divisor / 10;
        }
        k = k + 1;
    }
    out
}

/// Access control manager.
pub struct AccessControlManager {
    device_id: Option<String>,
    access_codes: Table<AccessCode>,
    authorized_devices: Table<DeviceAuthorization>,
    pending_requests: Table<ConnectionRequest>,
    device_registration: Option<DeviceRegistration>,
}

impl AccessControlManager {
    /// The manager's tables are well formed.
    pub closed spec fn wf(&self) -> bool {
        &&& self.access_codes.wf()
        &&& self.authorized_devices.wf()
        &&& self.pending_requests.wf()
        &&& (self.device_id is Some <==> self.device_registration is Some)
        &&& (self.device_id is Some ==> self.device_id->0@ == self.device_registration->0.device_id@)
    }

    /// Access codes by code.
    pub closed spec fn codes(&self) -> Map<Seq<char>, AccessCode> {
        self.access_codes@
    }

    /// Authorizations by remote device.
    pub closed spec fn authorizations(&self) -> Map<Seq<char>, DeviceAuthorization> {
        self.authorized_devices@
    }

    /// Pending connection requests by request ID.
    pub closed spec fn requests(&self) -> Map<Seq<char>, ConnectionRequest> {
        self.pending_requests@
    }

    /// This device's registration, if any.
    pub closed spec fn registration(&self) -> Option<DeviceRegistration> {
        self.device_registration
    }

    /// A manager with no registration, codes, requests or authorizations.
    pub fn new() -> (r: Self)
        ensures
            r.wf(),
            r.registration() is None,
            r.codes() == Map::<Seq<char>, AccessCode>::empty(),
            r.authorizations() == Map::<Seq<char>, DeviceAuthorization>::empty(),
            r.requests() == Map::<Seq<char>, ConnectionRequest>::empty(),
    {
        AccessControlManager {
            device_id: None,
            access_codes: Table::new(),
            authorized_devices: Table::new(),
            pending_requests: Table::new(),
            device_registration: None,
        }
    }

    /// A fresh random device ID: a version 4 UUID in hyphenated lower-case
    /// form.
    pub fn generate_device_id() -> (r: String)
        ensures
            is_uuid_v4_text(r@),
    {
        new_uuid_v4()
    }

    /// Registers this device at `now` and returns its ID. Registering again
    /// with the same name, platform and version keeps the ID and refreshes
    /// `last_seen`; different details get a fresh ID.
    pub fn register_device(&mut self, device_name: String, platform: String, version: String, now: u64) -> (r:
        String)
        requires
            old(self).wf(),
        ensures
            final(self).wf(),
            final(self).registration() matches Some(reg) && reg.device_id@ == r@ && reg.device_name@
                == device_name@ && reg.platform@ == platform@ && reg.version@ == version@ && reg.last_seen == now,
            (old(self).registration() matches Some(prev) && prev.device_name@ == device_name@ && prev.platform@
                == platform@ && prev.version@ == version@) ==> r@ == old(self).registration()->0.device_id@,
            !(old(self).registration() matches Some(prev) && prev.device_name@ == device_name@ && prev.platform@
                == platform@ && prev.version@ == version@) ==> is_uuid_v4_text(r@),
            final(self).codes() == old(self).codes(),
            final(self).authorizations() == old(self).authorizations(),
            final(self).requests() == old(self).requests(),
    {
        let same = match &self.device_registration {
            Some(reg) => reg.device_name == device_name && reg.platform == platform && reg.version == version,
            None => false,
        };
        if same {
            let mut reg = self.device_registration.take().unwrap();
            reg.last_seen = now;
            let id = reg.device_id.clone();
            self.device_registration = Some(reg);
            return id;
        }
        let device_id = Self::generate_device_id();
        let registration = DeviceRegistration {
            device_id: device_id.clone(),
            device_name,
            platform,
            version,
            registered_at: now,
            last_seen: now,
            unattended_access_enabled: false,
            unattended_password_hash: None,
        };
        self.device_registration = Some(registration);
        self.device_id = Some(device_id.clone());
        device_id
    }

    /// This device's ID, if registered.
    pub fn get_device_id(&self) -> (r: Option<String>)
        requires
            self.wf(),
        ensures
            r matches Some(id) ==> self.registration() matches Some(reg) && id@ == reg.device_id@,
            r is None <==> self.registration() is None,
    {
        self.device_id.clone()
    }

    /// This device's registration, if any.
    pub fn get_device_registration(&self) -> (r: Option<&DeviceRegistration>)
        ensures
            r matches Some(reg) ==> self.registration() == Some(*reg),
            r is None <==> self.registration() is None,
    {
        match &self.device_registration {
            Some(reg) => Some(reg),
            None => None,
        }
    }

    /// Issues a random six-digit access code at `now` for `permissions`,
    /// valid for 600 seconds. Fails with `NotRegistered` before registration.
    pub fn generate_access_code(&mut self, permissions: Vec<Permission>, now: u64) -> (r: Result<
        AccessCode,
        CoreError,
    >)
        requires
            old(self).wf(),
        ensures
            final(self).wf(),
            old(self).registration() is None <==> r is Err,
            r matches Err(e) ==> e == CoreError::NotRegistered && final(self).codes() == old(self).codes(),
            r matches Ok(c) ==> {
                &&& is_six_digit_code(c.code@)
                &&& c.device_id@ == old(self).registration()->0.device_id@
                &&& c.created_at == now
                &&& c.expires_in == ACCESS_CODE_EXPIRATION_SECS
                &&& c.permissions@ == permissions@
                &&& !c.used
                &&& final(self).codes().contains_key(c.code@)
                &&& same_code(final(self).codes()[c.code@], c)
                &&& final(self).codes().remove(c.code@) == old(self).codes().remove(c.code@)
            },
            final(self).registration() == old(self).registration(),
            final(self).authorizations() == old(self).authorizations(),
            final(self).requests() == old(self).requests(),
    {
        let device_id = match &self.device_id {
            Some(id) => id.clone(),
            None => {
                return Err(CoreError::NotRegistered);
            },
        };
        let code = six_digits(random_below(1_000_000));
        let access_code = AccessCode {
            code: code.clone(),
            device_id,
            created_at: now,
            expires_in: ACCESS_CODE_EXPIRATION_SECS,
            permissions,
            used: false,
        };
        let stored = access_code.duplicate();
        self.access_codes.insert(code, stored);
        proof {
            assert(self.codes().remove(access_code.code@) =~= old(self).codes().remove(access_code.code@));
        }
        Ok(access_code)
    }

    /// The record of `code` if it is valid at `now`.
    pub fn validate_access_code(&self, code: &str, now: u64) -> (r: Option<AccessCode>)
        requires
            self.wf(),
        ensures
            r is Some <==> (self.codes().contains_key(code@) && code_valid(self.codes()[code@], now)),
            r matches Some(c) ==> same_code(c, self.codes()[code@]),
    {
        match self.access_codes.get(code) {
            Some(c) => {
                if c.is_valid(now) {
                    Some(c.duplicate())
                } else {
                    None
                }
            },
            None => None,
        }
    }

    /// Uses `code` at `now`: when it is valid, marks it used and returns its
    /// permissions; otherwise returns `None` and changes nothing.
    pub fn use_access_code(&mut self, code: &str, now: u64) -> (r: Option<Vec<Permission>>)
        requires
            old(self).wf(),
        ensures
            final(self).wf(),
            r is Some <==> (old(self).codes().contains_key(code@) && code_valid(old(self).codes()[code@], now)),
            r is None ==> final(self).codes() == old(self).codes(),
            r matches Some(p) ==> {
                let c = old(self).codes()[code@];
                &&& p@ == c.permissions@
                &&& final(self).codes().contains_key(code@)
                &&& final(self).codes()[code@].used
                &&& final(self).codes()[code@].code@ == c.code@
                &&& final(self).codes()[code@].created_at == c.created_at
                &&& final(self).codes()[code@].expires_in == c.expires_in
                &&& final(self).codes()[code@].permissions@ == c.permissions@
                &&& final(self).codes().remove(code@) == old(self).codes().remove(code@)
            },
            final(self).registration() == old(self).registration(),
            final(self).authorizations() == old(self).authorizations(),
            final(self).requests() == old(self).requests(),
    {
        let valid = match self.access_codes.get(code) {
            Some(c) => c.is_valid(now),
            None => false,
        };
        if !valid {
            return None;
        }
        let mut c = self.access_codes.remove(code).unwrap();
        c.used = true;
        let permissions = copy_permissions(&c.permissions);
        self.access_codes.insert(code.to_string(), c);
        proof {
            assert(self.codes().remove(code@) =~= old(self).codes().remove(code@));
        }
        Some(permissions)
    }

    /// Drops every code that has expired at `now`.
    pub fn cleanup_expired_codes(&mut self, now: u64)
        requires
            old(self).wf(),
        ensures
            final(self).wf(),
            forall|k: Seq<char>|
                #[trigger] final(self).codes().contains_key(k) <==> (old(self).codes().contains_key(k)
                    && !code_expired(old(self).codes()[k], now)),
            forall|k: Seq<char>|
                #[trigger] final(self).codes().contains_key(k) ==> final(self).codes()[k] == old(self).codes()[k],
            final(self).registration() == old(self).registration(),
            final(self).authorizations() == old(self).authorizations(),
            final(self).requests() == old(self).requests(),
    {
        let ids = self.access_codes.keys();
        let ghost orig = self.codes();
        proof {
            self.access_codes.lemma_keys();
        }
        let mut i: usize = 0;
        while i < ids.len()
            invariant
                self.wf(),
                i <= ids@.len(),
                string_views(ids@).no_duplicates(),
                forall|k: Seq<char>| orig.contains_key(k) <==> string_views(ids@).contains(k),
                forall|k: Seq<char>|
                    #[trigger] self.codes().contains_key(k) <==> (orig.contains_key(k) && !(
                    string_views(ids@).subrange(0, i as int).contains(k) && code_expired(orig[k], now))),
                forall|k: Seq<char>| #[trigger] self.codes().contains_key(k) ==> self.codes()[k] == orig[k],
                self.device_registration == old(self).device_registration,
                self.authorized_devices == old(self).authorized_devices,
                self.pending_requests == old(self).pending_requests,
            decreases ids@.len() - i,
        {
            let ghost kv = string_views(ids@);
            let ghost k = ids@[i as int]@;
            let ghost prev = self.codes();
            proof {
                assert(kv[i as int] == k);
                lemma_prefix_extend(kv, i as int);
                lemma_prefix_unique(kv, i as int);
                assert(kv.contains(k));
                assert(orig.contains_key(k));
                assert(prev.contains_key(k));
            }
            let id = ids[i].as_str();
            let expired = match self.access_codes.get(id) {
                Some(c) => c.is_expired(now),
                None => false,
            };
            if expired {
                self.access_codes.remove(id);
                assert(self.codes() == prev.remove(k));
            }
            proof {
                assert forall|k2: Seq<char>| #[trigger] self.codes().contains_key(k2) <==> (orig.contains_key(k2) && !(
                    kv.subrange(0, i + 1).contains(k2) && code_expired(orig[k2], now))) by {
                    if k2 != k {
                        assert(kv.subrange(0, i + 1).contains(k2) == kv.subrange(0, i as int).contains(k2));
                    }
                }
            }
            i = i + 1;
        }
        proof {
            let kv = string_views(ids@);
            assert(kv.subrange(0, ids@.len() as int) =~= kv);
        }
    }

    /// Records a connection request from a remote device at `now` and
    /// returns it; its ID is a fresh UUID, one not pending already. Fails
    /// with `Internal`, recording nothing, if several draws all collide with
    /// pending IDs.
    pub fn handle_connection_request(
        &mut self,
        from_device_id: String,
        from_device_name: String,
        requested_permissions: Vec<Permission>,
        access_code: Option<String>,
        now: u64,
    ) -> (r: Result<ConnectionRequest, CoreError>)
        requires
            old(self).wf(),
        ensures
            final(self).wf(),
            r matches Err(e) ==> e == CoreError::Internal && final(self).requests() == old(self).requests(),
            r matches Ok(req) ==> {
                &&& is_uuid_v4_text(req.request_id@)
                &&& !old(self).requests().contains_key(req.request_id@)
                &&& req.from_device_id@ == from_device_id@
                &&& req.from_device_name@ == from_device_name@
                &&& req.requested_permissions@ == requested_permissions@
                &&& req.access_code == access_code
                &&& req.requested_at == now
                &&& final(self).requests().contains_key(req.request_id@)
                &&& same_request(final(self).requests()[req.request_id@], req)
                &&& final(self).requests().remove(req.request_id@) == old(self).requests()
            },
            final(self).codes() == old(self).codes(),
            final(self).authorizations() == old(self).authorizations(),
            final(self).registration() == old(self).registration(),
    {
        let mut attempts: u32 = 0;
        let mut request_id = new_uuid_v4();
        while self.pending_requests.contains(request_id.as_str())
            invariant
                self.wf(),
                self == old(self),
                is_uuid_v4_text(request_id@),
                attempts <= MAX_ID_DRAWS,
            decreases MAX_ID_DRAWS - attempts,
        {
            if attempts == MAX_ID_DRAWS {
                return Err(CoreError::Internal);
            }
            attempts = attempts + 1;
            request_id = new_uuid_v4();
        }
        let stored = ConnectionRequest {
            request_id: request_id.clone(),
            from_device_id: from_device_id.clone(),
            from_device_name: from_device_name.clone(),
            requested_permissions: copy_permissions(&requested_permissions),
            access_code: access_code.clone(),
            requested_at: now,
        };
        self.pending_requests.insert(request_id.clone(), stored);
        let req = ConnectionRequest {
            request_id,
            from_device_id,
            from_device_name,
            requested_permissions,
            access_code,
            requested_at: now,
        };
        proof {
            assert(self.requests().remove(req.request_id@) =~= old(self).requests());
        }
        Ok(req)
    }

    /// Answers the pending request `request_id` at `now`. On acceptance the
    /// requesting device is authorized, by access code, for the granted
    /// permissions (the requested ones when none are given); on rejection the
    /// reason is passed on. Either way the request is no longer pending.
    /// Fails with `NotFound` when no such request is pending.
    pub fn respond_to_request(
        &mut self,
        request_id: &str,
        accepted: bool,
        granted_permissions: Option<Vec<Permission>>,
        rejection_reason: Option<String>,
        now: u64,
    ) -> (r: Result<ConnectionResponse, CoreError>)
        requires
            old(self).wf(),
        ensures
            final(self).wf(),
            !old(self).requests().contains_key(request_id@) <==> r is Err,
            r matches Err(e) ==> e == CoreError::NotFound && final(self).requests() == old(self).requests()
                && final(self).authorizations() == old(self).authorizations(),
            r matches Ok(resp) ==> {
                let req = old(self).requests()[request_id@];
                let perms = if granted_permissions is Some {
                    granted_permissions->0@
                } else {
                    req.requested_permissions@
                };
                &&& final(self).requests() == old(self).requests().remove(request_id@)
                &&& resp.request_id@ == request_id@
                &&& resp.accepted == accepted
                &&& accepted ==> {
                    &&& resp.granted_permissions@ == perms
                    &&& resp.rejection_reason is None
                    &&& final(self).authorizations().contains_key(req.from_device_id@)
                    &&& final(self).authorizations()[req.from_device_id@].active
                    &&& final(self).authorizations()[req.from_device_id@].permissions@ == perms
                    &&& final(self).authorizations()[req.from_device_id@].device_name@ == req.from_device_name@
                    &&& final(self).authorizations()[req.from_device_id@].auth_type == AuthorizationType::AccessCode
                    &&& final(self).authorizations()[req.from_device_id@].authorized_at == now
                    &&& final(self).authorizations().remove(req.from_device_id@) == old(self).authorizations().remove(
                        req.from_device_id@,
                    )
                }
                &&& !accepted ==> {
                    &&& resp.granted_permissions@.len() == 0
                    &&& resp.rejection_reason == rejection_reason
                    &&& final(self).authorizations() == old(self).authorizations()
                }
            },
            final(self).codes() == old(self).codes(),
            final(self).registration() == old(self).registration(),
    {
        let request = match self.pending_requests.remove(request_id) {
            Some(req) => req,
            None => {
                return Err(CoreError::NotFound);
            },
        };
        if accepted {
            let permissions = match granted_permissions {
                Some(p) => p,
                None => copy_permissions(&request.requested_permissions),
            };
            let auth = DeviceAuthorization {
                device_id: request.from_device_id.clone(),
                device_name: request.from_device_name.clone(),
                auth_type: AuthorizationType::AccessCode,
                permissions: copy_permissions(&permissions),
                authorized_at: now,
                expires_at: None,
                active: true,
            };
            self.authorized_devices.insert(request.from_device_id.clone(), auth);
            proof {
                assert(self.authorizations().remove(request.from_device_id@) =~= old(self).authorizations().remove(
                    request.from_device_id@,
                ));
            }
            Ok(ConnectionResponse {
                request_id: request_id.to_string(),
                accepted: true,
                granted_permissions: permissions,
                rejection_reason: None,
            })
        } else {
            Ok(ConnectionResponse {
                request_id: request_id.to_string(),
                accepted: false,
                granted_permissions: Vec::new(),
                rejection_reason,
            })
        }
    }

    /// Whether `device_id` holds an active authorization.
    pub fn is_device_authorized(&self, device_id: &str) -> (r: bool)
        requires
            self.wf(),
        ensures
            r == (self.authorizations().contains_key(device_id@) && self.authorizations()[device_id@].active),
    {
        match self.authorized_devices.get(device_id) {
            Some(auth) => auth.active,
            None => false,
        }
    }

    /// The permissions of an actively authorized device.
    pub fn get_device_permissions(&self, device_id: &str) -> (r: Option<Vec<Permission>>)
        requires
            self.wf(),
        ensures
            r is Some <==> (self.authorizations().contains_key(device_id@) && self.authorizations()[device_id@].active),
            r matches Some(p) ==> p@ == self.authorizations()[device_id@].permissions@,
    {
        match self.authorized_devices.get(device_id) {
            Some(auth) => {
                if auth.active {
                    Some(copy_permissions(&auth.permissions))
                } else {
                    None
                }
            },
            None => None,
        }
    }

    /// Revokes the authorization of `device_id`: it stays on record, inactive.
    /// Fails with `NotFound` for a device never authorized.
    pub fn revoke_authorization(&mut self, device_id: &str) -> (r: Result<(), CoreError>)
        requires
            old(self).wf(),
        ensures
            final(self).wf(),
            r is Err <==> !old(self).authorizations().contains_key(device_id@),
            r matches Err(e) ==> e == CoreError::NotFound && final(self).authorizations() == old(self).authorizations(),
            r is Ok ==> {
                let a = old(self).authorizations()[device_id@];
                &&& final(self).authorizations().contains_key(device_id@)
                &&& !final(self).authorizations()[device_id@].active
                &&& final(self).authorizations()[device_id@].permissions@ == a.permissions@
                &&& final(self).authorizations().remove(device_id@) == old(self).authorizations().remove(device_id@)
            },
            final(self).codes() == old(self).codes(),
            final(self).requests() == old(self).requests(),
            final(self).registration() == old(self).registration(),
    {
        match self.authorized_devices.remove(device_id) {
            Some(mut auth) => {
                auth.active = false;
                self.authorized_devices.insert(device_id.to_string(), auth);
                proof {
                    assert(self.authorizations().remove(device_id@) =~= old(self).authorizations().remove(device_id@));
                }
                Ok(())
            },
            None => Err(CoreError::NotFound),
        }
    }

    /// The authorization records, in the order the devices were first
    /// authorized.
    pub fn get_authorized_devices(&self) -> (r: Vec<&DeviceAuthorization>)
        requires
            self.wf(),
        ensures
            r@.len() == self.authorizations().dom().len(),
            forall|i: int| 0 <= i < r@.len() ==> self.authorizations().values().contains(*#[trigger] r@[i]),
    {
        proof {
            self.authorized_devices.lemma_len();
            self.authorized_devices.lemma_keys();
        }
        let r = self.authorized_devices.values();
        proof {
            assert forall|i: int| 0 <= i < r@.len() implies self.authorizations().values().contains(*#[trigger] r@[i]) by {
                let k = self.authorized_devices.key_seq()[i];
                assert(self.authorizations().contains_key(k));
            }
        }
        r
    }

    /// The pending connection requests, oldest first.
    pub fn get_pending_requests(&self) -> (r: Vec<&ConnectionRequest>)
        requires
            self.wf(),
        ensures
            r@.len() == self.requests().dom().len(),
            forall|i: int| 0 <= i < r@.len() ==> self.requests().values().contains(*#[trigger] r@[i]),
    {
        proof {
            self.pending_requests.lemma_len();
            self.pending_requests.lemma_keys();
        }
        let r = self.pending_requests.values();
        proof {
            assert forall|i: int| 0 <= i < r@.len() implies self.requests().values().contains(*#[trigger] r@[i]) by {
                let k = self.pending_requests.key_seq()[i];
                assert(self.requests().contains_key(k));
            }
        }
        r
    }

    /// Enables unattended access with `password`, storing only its Argon2
    /// hash. Fails with `NotRegistered` before registration, and with
    /// `Internal` if hashing fails.
    pub fn enable_unattended_access(&mut self, password: &str) -> (r: Result<(), CoreError>)
        requires
            old(self).wf(),
        ensures
            final(self).wf(),
            r == Err::<(), CoreError>(CoreError::NotRegistered) <==> old(self).registration() is None,
            r matches Err(e) ==> e == CoreError::NotRegistered || e == CoreError::Internal,
            old(self).registration() is Some && password@.len() <= 0x3FFF_FFFF ==> r is Ok,
            r is Err ==> final(self).registration() == old(self).registration(),
            r is Ok ==> unattended_accepts(final(self).registration(), password@) && final(self).registration()->0.device_id@ == old(self).registration()->0.device_id@,
            final(self).codes() == old(self).codes(),
            final(self).authorizations() == old(self).authorizations(),
            final(self).requests() == old(self).requests(),
    {
        if self.device_registration.is_none() {
            return Err(CoreError::NotRegistered);
        }
        let hash = match argon2_hash(password) {
            Some(h) => h,
            None => {
                return Err(CoreError::Internal);
            },
        };
        let mut reg = self.device_registration.take().unwrap();
        reg.unattended_access_enabled = true;
        reg.unattended_password_hash = Some(hash);
        self.device_registration = Some(reg);
        Ok(())
    }

    /// Disables unattended access and forgets the credential. Fails with
    /// `NotRegistered` before registration.
    pub fn disable_unattended_access(&mut self) -> (r: Result<(), CoreError>)
        requires
            old(self).wf(),
        ensures
            final(self).wf(),
            old(self).registration() is None <==> r is Err,
            r matches Err(e) ==> e == CoreError::NotRegistered,
            r is Ok ==> (final(self).registration() matches Some(reg) && !reg.unattended_access_enabled
                && reg.unattended_password_hash is None),
            final(self).codes() == old(self).codes(),
            final(self).authorizations() == old(self).authorizations(),
    {
        if self.device_registration.is_none() {
            return Err(CoreError::NotRegistered);
        }
        let mut reg = self.device_registration.take().unwrap();
        reg.unattended_access_enabled = false;
        reg.unattended_password_hash = None;
        self.device_registration = Some(reg);
        Ok(())
    }

    /// Whether unattended access is enabled and `password` matches the stored
    /// credential.
    pub fn validate_unattended_password(&self, password: &str) -> (r: bool)
        ensures
            r == unattended_accepts(self.registration(), password@),
    {
        match &self.device_registration {
            Some(reg) => {
                if reg.unattended_access_enabled {
                    match &reg.unattended_password_hash {
                        Some(h) => argon2_verify(password, h.as_str()),
                        None => false,
                    }
                } else {
                    false
                }
            },
            None => false,
        }
    }
}

} // verus!
