//! The settings pages and the decisions of the account and user routes:
//! who may shut the server down, whose credentials a change goes to, and
//! which users may be deleted.
use vstd::prelude::*;
use crate::frontend::{frontend_redirect, push_url_spec, redirect_spec, HXTarget};

verus! {

/// An element swapped into the page by id, with an optional htmx swap
/// method.
pub struct SwapIn<T> {
    pub swap_id: &'static str,
    pub swap_method: Option<&'static str>,
    pub content: T,
}

/// A user in the list of the user settings.
pub struct UserEntry {
    pub user_id: u64,
    pub name: String,
    pub can_delete: bool,
}

/// A media location in the list of the location settings.
pub struct LocationEntry {
    pub checked: bool,
    pub location_id: u64,
    pub path: String,
}

/// An input field of a creation form.
pub enum CreationInput {
    Text { typ: &'static str, name: &'static str, placeholder: &'static str },
    Checkbox { label: &'static str, name: &'static str, value: &'static str },
}

/// A list with a form that adds to it.
pub struct Creation {
    pub title: &'static str,
    pub list_id: &'static str,
    pub error_id: &'static str,
    pub post_addr: &'static str,
    pub entries: Vec<UserEntry>,
    pub inputs: Vec<CreationInput>,
}

/// One block of a settings section.
pub enum Setting {
    CreationMenu { creation: Creation },
}

/// The section that only owners see.
pub struct AdminSettings {
    pub admin_settings: Vec<Setting>,
}

/// The section of the user's own account.
pub struct AccountSettings {
    pub account_settings: Vec<Setting>,
}

/// The section of the user's profile.
pub struct ProfileSettings {
    pub name: String,
}

/// The settings page: the owner's section, if the user is an owner, the
/// account section, the link back, and the user's name.
pub struct Settings {
    pub admin_settings: Option<Vec<Setting>>,
    pub account_settings: Vec<Setting>,
    pub redirect_back: String,
    pub name: String,
}

/// A user as the user list shows it: id, name, and whether the user is an
/// owner (owners cannot be deleted).
pub open spec fn entry_matches(e: UserEntry, u: (u64, String, bool)) -> bool {
    e.user_id == u.0 && e.name@ == u.1@ && e.can_delete == !u.2
}

/// The menu that lists the users and adds new ones.
pub fn user_creation(users: Vec<(u64, String, bool)>) -> (r: Setting)
    ensures
        match r {
            Setting::CreationMenu { creation } => {
                &&& creation.title@ == "Users"@
                &&& creation.list_id@ == "user_list"@
                &&& creation.error_id@ == "user_error"@
                &&& creation.post_addr@ == "/settings/user"@
                &&& creation.entries@.len() == users@.len()
                &&& forall|i: int|
                    0 <= i < users@.len() ==> entry_matches(
                        #[trigger] creation.entries@[i],
                        users@[i],
                    )
                &&& creation.inputs@.len() == 2
                &&& creation.inputs@[0] == (CreationInput::Text {
                    typ: "text",
                    name: "username",
                    placeholder: "Username",
                })
                &&& creation.inputs@[1] == (CreationInput::Text {
                    typ: "password",
                    name: "password",
                    placeholder: "Password",
                })
            },
        },
{
    let mut entries: Vec<UserEntry> = Vec::new();
    let count = users.len();
    let mut rest = users;
    let ghost all = rest@;
    let mut k: usize = 0;
    while rest.len() > 0
        invariant
            k + rest@.len() == all.len(),
            all.len() == count,
            rest@ == all.subrange(k as int, all.len() as int),
            entries@.len() == k,
            forall|i: int| 0 <= i < k ==> entry_matches(#[trigger] entries@[i], all[i]),
        decreases rest@.len(),
    {
        let ghost r0 = rest@;
        let (user_id, name, is_owner) = rest.remove(0);
        assert(all[k as int] == r0[0]);
        entries.push(UserEntry { user_id, name, can_delete: !is_owner });
        assert(rest@ =~= all.subrange(k + 1, all.len() as int));
        k = k + 1;
    }
    let mut inputs: Vec<CreationInput> = Vec::new();
    inputs.push(CreationInput::Text { typ: "text", name: "username", placeholder: "Username" });
    inputs.push(CreationInput::Text { typ: "password", name: "password", placeholder: "Password" });
    Setting::CreationMenu {
        creation: Creation {
            title: "Users",
            list_id: "user_list",
            error_id: "user_error",
            post_addr: "/settings/user",
            entries,
            inputs,
        },
    }
}

/// The settings page of a user: owners get the user menu (`users` lists
/// every user), others no owner section; the link back goes to the start
/// page.
pub fn settings_page(is_owner: bool, users: Vec<(u64, String, bool)>, name: String) -> (r: Settings)
    ensures
        is_owner <==> r.admin_settings is Some,
        r.admin_settings matches Some(s) ==> s@.len() == 1,
        r.account_settings@.len() == 0,
        r.redirect_back@ == redirect_spec("/"@, HXTarget::All, Some(push_url_spec("/"@, HXTarget::All))),
        r.name@ == name@,
{
    let admin_settings = if is_owner {
        let mut v: Vec<Setting> = Vec::new();
        v.push(user_creation(users));
        Some(v)
    } else {
        None
    };
    Settings {
        admin_settings,
        account_settings: Vec::new(),
        redirect_back: frontend_redirect("/", HXTarget::All),
        name,
    }
}

/// The status of an owner-only action such as shutdown or restart:
/// `202 Accepted` for an owner, `401 Unauthorized` for anyone else.
pub fn owner_action_status(is_owner: bool) -> (r: u16)
    ensures
        r == (if is_owner { 202u16 } else { 401u16 }),
{
    if is_owner {
        202
    } else {
        401
    }
}

/// Where a change of name or password goes.
#[derive(Clone, Copy, PartialEq, Eq, Structural, Debug)]
pub enum CredentialStore {
    /// The administrator of the configuration file.
    ConfigFile,
    /// The user's row in the database.
    Database,
}

/// A change of name or password of the configured administrator goes to
/// the configuration file; any other user's goes to the database.
pub fn credential_store(admin_username: &str, username: &str) -> (r: CredentialStore)
    ensures
        r == (if admin_username@ == username@ {
            CredentialStore::ConfigFile
        } else {
            CredentialStore::Database
        }),
{
    let a = crate::text::to_chars(admin_username);
    let b = crate::text::to_chars(username);
    if crate::text::chars_equal(a.as_slice(), b.as_slice()) {
        CredentialStore::ConfigFile
    } else {
        CredentialStore::Database
    }
}

/// Why a user could not be removed.
#[derive(Clone, Copy, PartialEq, Eq, Structural, Debug)]
pub enum RemoveUserError {
    /// Only owners may remove users.
    NotPermitted,
    /// Owners cannot be removed.
    Protected,
}

/// Whether a user may be removed: the one asking must be an owner, and the
/// user must not be one.
pub fn may_remove_user(requester_is_owner: bool, target_is_owner: bool) -> (r: Result<
    (),
    RemoveUserError,
>)
    ensures
        !requester_is_owner ==> r == Err::<(), RemoveUserError>(RemoveUserError::NotPermitted),
        requester_is_owner && target_is_owner ==> r == Err::<(), RemoveUserError>(
            RemoveUserError::Protected,
        ),
        requester_is_owner && !target_is_owner ==> r is Ok,
{
    if !requester_is_owner {
        Err(RemoveUserError::NotPermitted)
    } else if target_is_owner {
        Err(RemoveUserError::Protected)
    } else {
        Ok(())
    }
}

/// The message shown when a new user name is taken.
pub fn name_taken() -> (r: SwapIn<&'static str>)
    ensures
        r.swap_id@ == "user_error"@,
        r.swap_method is None,
        r.content@ == "That Username is not available!"@,
{
    SwapIn { swap_id: "user_error", swap_method: None, content: "That Username is not available!" }
}

/// The entry appended to the user list for a newly created user.
pub fn new_user_entry(user_id: u64, name: String) -> (r: SwapIn<UserEntry>)
    ensures
        r.swap_id@ == "user_list"@,
        r.swap_method matches Some(m) && m@ == "beforeend"@,
        r.content.user_id == user_id,
        r.content.name@ == name@,
        r.content.can_delete,
{
    SwapIn {
        swap_id: "user_list",
        swap_method: Some("beforeend"),
        content: UserEntry { user_id, name, can_delete: true },
    }
}

} // verus!
