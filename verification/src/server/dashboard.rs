//! What the dashboard shows and whom it acts for.  The database, the
//! template and the redirects are outside; here the server decides who
//! the user is, what each device row shows, and what the page holds.

use vstd::prelude::*;
use crate::server::auth::AuthUser;
use crate::server::models::{Device, Gateway, User};
use crate::server::registry::ConnectionRegistry;

verus! {

/// The user the dashboard acts for without sign-in.
pub open spec fn is_dev_user(u: AuthUser) -> bool {
    &&& u.clerk_user_id@ == "dev-user"@
    &&& u.email matches Some(e) && e@ == "dev@example.com"@
}

/// The user a dashboard request acts for: the signed-in user; without
/// one, the development user where sign-in is not configured, and nobody
/// (the caller is sent to `/login`) where it is.
pub fn request_user(user: Option<AuthUser>, sign_in_configured: bool) -> (r: Option<AuthUser>)
    ensures
        user is Some ==> r == user,
        user is None && !sign_in_configured ==> (r matches Some(u) && is_dev_user(u)),
        user is None && sign_in_configured ==> r is None,
{
    match user {
        Some(u) => Some(u),
        None => {
            if sign_in_configured {
                None
            } else {
                Some(AuthUser { clerk_user_id: "dev-user".to_string(), email: Some("dev@example.com".to_string()) })
            }
        },
    }
}

/// The email a user is recorded with: theirs, or `unknown`.
pub fn recorded_email(user: &AuthUser) -> (e: String)
    ensures
        match user.email {
            Some(m) => e@ == m@,
            None => e@ == "unknown"@,
        },
{
    match &user.email {
        Some(m) => m.as_str().to_string(),
        None => "unknown".to_string(),
    }
}

/// A device as a dashboard row shows it.
#[derive(Debug)]
pub struct DeviceView {
    pub id: String,
    pub name: String,
    pub alias: String,
    pub key: String,
    pub is_online: bool,
}

/// The dashboard page.
#[derive(Debug)]
pub struct DashboardPage {
    pub email: String,
    pub base_url: String,
    pub gateway_key: String,
    pub devices: Vec<DeviceView>,
}

/// The dashboard of `user` for its gateway and devices, reached at
/// `base_url`: each device, in order, with whether it is connected now;
/// a user without email is shown as `Unknown`.
pub fn dashboard_page(user: AuthUser, gateway: Gateway, devices: Vec<Device>, registry: &ConnectionRegistry, base_url: String)
    -> (p: DashboardPage)
    requires
        registry.wf(),
    ensures
        match user.email {
            Some(m) => p.email == m,
            None => p.email@ == "Unknown"@,
        },
        p.base_url == base_url,
        p.gateway_key == gateway.key,
        p.devices@.len() == devices@.len(),
        forall|i: int| 0 <= i < devices@.len() ==> {
            &&& (#[trigger] p.devices@[i]).id == devices@[i].id
            &&& p.devices@[i].name == devices@[i].name
            &&& p.devices@[i].alias == devices@[i].alias
            &&& p.devices@[i].key == devices@[i].key
            &&& p.devices@[i].is_online == registry@.connections.contains_key(devices@[i].key@)
        },
{
    let ghost orig = devices@;
    let mut rest = devices;
    let mut rows: Vec<DeviceView> = Vec::new();
    assert(orig.skip(0) =~= orig);
    while rest.len() > 0
        invariant
            registry.wf(),
            rows@.len() + rest@.len() == orig.len(),
            rest@ == orig.skip(rows@.len() as int),
            forall|i: int| 0 <= i < rows@.len() ==> {
                &&& (#[trigger] rows@[i]).id == orig[i].id
                &&& rows@[i].name == orig[i].name
                &&& rows@[i].alias == orig[i].alias
                &&& rows@[i].key == orig[i].key
                &&& rows@[i].is_online == registry@.connections.contains_key(orig[i].key@)
            },
        decreases rest@.len(),
    {
        let d = rest.remove(0);
        let ghost k = rows@.len() as int;
        assert(orig[k] == d);
        let online = registry.is_online(d.key.as_str());
        rows.push(DeviceView { id: d.id, name: d.name, alias: d.alias, key: d.key, is_online: online });
        assert(rest@ =~= orig.skip(rows@.len() as int));
    }
    let email = match user.email {
        Some(m) => m,
        None => "Unknown".to_string(),
    };
    DashboardPage { email, base_url, gateway_key: gateway.key, devices: rows }
}

/// The records a first sign-in creates: the user, and their gateway with
/// its key, both stamped `now`.
pub fn new_user_records(clerk_user_id: String, email: String, user_id: String, gateway_id: String, gateway_key: String, now: i64)
    -> (r: (User, Gateway))
    ensures
        r.0.id == user_id,
        r.0.clerk_user_id == clerk_user_id,
        r.0.email == email,
        r.0.created_at == now,
        r.1.id == gateway_id,
        r.1.user_id@ == user_id@,
        r.1.key == gateway_key,
        r.1.name is None,
        r.1.created_at == now,
{
    let gateway = Gateway { id: gateway_id, user_id: user_id.as_str().to_string(), key: gateway_key, name: None, created_at: now };
    (User { id: user_id, clerk_user_id, email, created_at: now }, gateway)
}

} // verus!
