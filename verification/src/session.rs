use vstd::prelude::*;
use vstd::utf8::{decode_utf8, valid_utf8};

use crate::directplay::{DPLAppInfo, DPName};
use crate::guid::Guid;
use crate::text::{ascii_lowercase, lowercase_of, seq_contains_run, str_contains, string_from_utf8, to_lowercase};
use vstd::utf8::is_ascii_chars;

verus! {

/// A locally registered DirectPlay application: its name and identifier.
#[derive(Debug)]
pub struct AppInfo {
    pub app_name: String,
    pub app_guid: Guid,
}

impl Clone for AppInfo {
    fn clone(&self) -> (copy: Self)
        ensures
            copy == *self,
    {
        AppInfo { app_name: self.app_name.clone(), app_guid: self.app_guid }
    }
}

/// A DirectPlay service provider: its name and identifier.
#[derive(Debug)]
pub struct ServiceProvider {
    pub sp_name: String,
    pub sp_guid: Guid,
}

impl Clone for ServiceProvider {
    fn clone(&self) -> (copy: Self)
        ensures
            copy == *self,
    {
        ServiceProvider { sp_name: self.sp_name.clone(), sp_guid: self.sp_guid }
    }
}

/// What the user has chosen for the next launch.
#[derive(Debug)]
pub struct SessionInfo {
    pub selected_app: Option<AppInfo>,
    pub selected_service_provider: Option<ServiceProvider>,
    pub session_name: String,
    pub player_name: String,
    pub host_session: bool,
}

impl SessionInfo {
    /// The choices before the user has made any: nothing selected, empty
    /// names, hosting a new session.
    pub fn new() -> (info: SessionInfo)
        ensures
            info.selected_app is None,
            info.selected_service_provider is None,
            info.session_name@ == Seq::<char>::empty(),
            info.player_name@ == Seq::<char>::empty(),
            info.host_session,
    {
        SessionInfo {
            selected_app: None,
            selected_service_provider: None,
            session_name: String::new(),
            player_name: String::new(),
            host_session: true,
        }
    }
}

/// The kind of address that a service provider needs from the user.
#[derive(Clone, Copy, Debug, PartialEq, Eq, Structural)]
pub enum AddressType {
    TcpIp,
    Modem,
    Serial,
    Unspecified,
}

/// The address kind for a service provider whose lower-cased name is
/// `lower`: the first of "tcp", "modem", "serial" that occurs in it decides.
pub open spec fn address_type_for(lower: Seq<char>) -> AddressType {
    if seq_contains_run(lower, "tcp"@) {
        AddressType::TcpIp
    } else if seq_contains_run(lower, "modem"@) {
        AddressType::Modem
    } else if seq_contains_run(lower, "serial"@) {
        AddressType::Serial
    } else {
        AddressType::Unspecified
    }
}

/// The address kind for an already lower-cased service provider name.
pub fn address_type_of_lowercase(lower: &str) -> (kind: AddressType)
    ensures
        kind == address_type_for(lower@),
{
    if str_contains(lower, "tcp") {
        AddressType::TcpIp
    } else if str_contains(lower, "modem") {
        AddressType::Modem
    } else if str_contains(lower, "serial") {
        AddressType::Serial
    } else {
        AddressType::Unspecified
    }
}

/// The address kind that the user is asked for once the service provider
/// named `sp_name` is selected; the name is compared in lower case (for a
/// name of ASCII characters: with `A`-`Z` read as `a`-`z`).
pub fn set_address_type(sp_name: &str) -> (kind: AddressType)
    ensures
        kind == address_type_for(lowercase_of(sp_name@)),
        is_ascii_chars(sp_name@) ==> kind == address_type_for(ascii_lowercase(sp_name@)),
{
    let lower = to_lowercase(sp_name);
    address_type_of_lowercase(lower.as_str())
}

/// `found` is the first element of `items` whose name (by `name_of`) is
/// `name`, or `None` where no element has that name.
pub open spec fn is_first_named<T>(items: Seq<T>, name_of: spec_fn(T) -> Seq<char>, name: Seq<char>, found: Option<T>) -> bool {
    match found {
        Some(item) => exists|i: int|
            0 <= i < items.len() && items[i] == item && name_of(items[i]) == name
                && forall|j: int| 0 <= j < i ==> name_of(#[trigger] items[j]) != name,
        None => forall|i: int| 0 <= i < items.len() ==> name_of(#[trigger] items[i]) != name,
    }
}

/// The name of an application.
pub open spec fn app_name_of(app: AppInfo) -> Seq<char> {
    app.app_name@
}

/// The name of a service provider.
pub open spec fn sp_name_of(sp: ServiceProvider) -> Seq<char> {
    sp.sp_name@
}

/// A copy of the first application named `app_name`, if any has that name.
pub fn get_selected_application(app_name: &str, applications: &mut Vec<AppInfo>) -> (selected: Option<AppInfo>)
    ensures
        *final(applications) == *old(applications),
        is_first_named(old(applications)@, |a: AppInfo| app_name_of(a), app_name@, selected),
{
    let name: String = app_name.to_owned();
    let n = applications.len();
    let mut i: usize = 0;
    while i < n
        invariant
            n == applications@.len(),
            name@ == app_name@,
            *applications == *old(applications),
            forall|j: int| 0 <= j < i ==> app_name_of(#[trigger] applications@[j]) != app_name@,
        decreases n - i,
    {
        if applications[i].app_name == name {
            let found = applications[i].clone();
            return Some(found);
        }
        i += 1;
    }
    None
}

/// A copy of the first service provider named `sp_name`, if any has that name.
pub fn get_selected_service_provider(sp_name: &str, service_providers: &mut Vec<ServiceProvider>) -> (selected: Option<ServiceProvider>)
    ensures
        *final(service_providers) == *old(service_providers),
        is_first_named(old(service_providers)@, |s: ServiceProvider| sp_name_of(s), sp_name@, selected),
{
    let name: String = sp_name.to_owned();
    let n = service_providers.len();
    let mut i: usize = 0;
    while i < n
        invariant
            n == service_providers@.len(),
            name@ == sp_name@,
            *service_providers == *old(service_providers),
            forall|j: int| 0 <= j < i ==> sp_name_of(#[trigger] service_providers@[j]) != sp_name@,
        decreases n - i,
    {
        if service_providers[i].sp_name == name {
            let found = service_providers[i].clone();
            return Some(found);
        }
        i += 1;
    }
    None
}


/// `after` is `before` with one more application at the end, named `name`
/// and identified by `guid`.
pub open spec fn app_appended(before: Seq<AppInfo>, after: Seq<AppInfo>, name: Seq<char>, guid: Guid) -> bool {
    &&& after.len() == before.len() + 1
    &&& after.drop_last() == before
    &&& after.last().app_name@ == name
    &&& after.last().app_guid == guid
}

/// `after` is `before` with one more service provider at the end, named
/// `name` and identified by `guid`.
pub open spec fn sp_appended(before: Seq<ServiceProvider>, after: Seq<ServiceProvider>, name: Seq<char>, guid: Guid) -> bool {
    &&& after.len() == before.len() + 1
    &&& after.drop_last() == before
    &&& after.last().sp_name@ == name
    &&& after.last().sp_guid == guid
}

/// Handles one application reported while the lobby enumerates the local
/// applications: one that is present and whose name is valid UTF-8 is added
/// to `applications`; the answer is always to go on enumerating.
pub fn enum_app(applications: &mut Vec<AppInfo>, app_info: Option<DPLAppInfo>) -> (keep_going: bool)
    ensures
        keep_going,
        if app_info is Some && valid_utf8(app_info->0.app_name@) {
            app_appended(old(applications)@, final(applications)@, decode_utf8(app_info->0.app_name@),
                app_info->0.guid_application)
        } else {
            final(applications)@ == old(applications)@
        },
{
    if let Some(info) = app_info {
        let guid = info.guid_application;
        if let Some(app_name) = string_from_utf8(info.app_name) {
            applications.push(AppInfo { app_name, app_guid: guid });
            assert(applications@.drop_last() =~= old(applications)@);
        }
    }
    true
}

/// Handles one service provider reported while the lobby enumerates its
/// connections: one with a name whose short form is valid UTF-8 and with an
/// identifier is added to `service_providers`; the answer is always to go on.
pub fn enum_sp(service_providers: &mut Vec<ServiceProvider>, guid_sp: Option<Guid>, name: Option<DPName>) -> (keep_going: bool)
    ensures
        keep_going,
        if name is Some && valid_utf8(name->0.short_name@) && guid_sp is Some {
            sp_appended(old(service_providers)@, final(service_providers)@,
                decode_utf8(name->0.short_name@), guid_sp->0)
        } else {
            final(service_providers)@ == old(service_providers)@
        },
{
    if let Some(name) = name {
        if let Some(sp_name) = string_from_utf8(name.short_name) {
            if let Some(sp_guid) = guid_sp {
                service_providers.push(ServiceProvider { sp_name, sp_guid });
                assert(service_providers@.drop_last() =~= old(service_providers)@);
            }
        }
    }
    true
}

/// Handles one address type reported while the lobby enumerates the address
/// types of a service provider: it is added to `address_types`; the answer is
/// always to go on enumerating.
pub fn enum_addr_types(address_types: &mut Vec<Guid>, address_type: Guid) -> (keep_going: bool)
    ensures
        keep_going,
        final(address_types)@ == old(address_types)@.push(address_type),
{
    address_types.push(address_type);
    true
}

/// The names of the applications, in order (the list shown to the user).
pub fn application_names(applications: &Vec<AppInfo>) -> (names: Vec<String>)
    ensures
        names@.len() == applications@.len(),
        forall|i: int| 0 <= i < names@.len() ==> #[trigger] names@[i]@ == applications@[i].app_name@,
{
    let mut names: Vec<String> = Vec::new();
    let n = applications.len();
    let mut i: usize = 0;
    while i < n
        invariant
            n == applications@.len(),
            i <= n,
            names@.len() == i,
            forall|k: int| 0 <= k < i ==> #[trigger] names@[k]@ == applications@[k].app_name@,
        decreases n - i,
    {
        names.push(applications[i].app_name.clone());
        i += 1;
    }
    names
}

/// The names of the service providers, in order (the list shown to the user).
pub fn service_provider_names(service_providers: &Vec<ServiceProvider>) -> (names: Vec<String>)
    ensures
        names@.len() == service_providers@.len(),
        forall|i: int| 0 <= i < names@.len() ==> #[trigger] names@[i]@ == service_providers@[i].sp_name@,
{
    let mut names: Vec<String> = Vec::new();
    let n = service_providers.len();
    let mut i: usize = 0;
    while i < n
        invariant
            n == service_providers@.len(),
            i <= n,
            names@.len() == i,
            forall|k: int| 0 <= k < i ==> #[trigger] names@[k]@ == service_providers@[k].sp_name@,
        decreases n - i,
    {
        names.push(service_providers[i].sp_name.clone());
        i += 1;
    }
    names
}

/// The first of `names`, or the empty string where there is none (the
/// selection shown before the user picks one).
pub fn first_name_or_empty(names: &Vec<String>) -> (first: String)
    ensures
        names@.len() > 0 ==> first@ == names@[0]@,
        names@.len() == 0 ==> first@ == Seq::<char>::empty(),
{
    if names.len() > 0 {
        names[0].clone()
    } else {
        String::new()
    }
}


/// Two ASCII provider names that differ only in the case of their letters
/// ask for the same kind of address.
pub proof fn lemma_address_type_ignores_ascii_case(a: Seq<char>, b: Seq<char>)
    requires
        ascii_lowercase(a) == ascii_lowercase(b),
    ensures
        address_type_for(ascii_lowercase(a)) == address_type_for(ascii_lowercase(b)),
{
}

/// The list after address types `reported` are handed, one call of
/// `enum_addr_types` each and in order, to a list that held `before`.
pub open spec fn after_reports(before: Seq<Guid>, reported: Seq<Guid>) -> Seq<Guid>
    decreases reported.len(),
{
    if reported.len() == 0 {
        before
    } else {
        after_reports(before.push(reported[0]), reported.drop_first())
    }
}

/// Enumerating any number of address types appends them all, in the order
/// they were reported, after what the list held.
pub proof fn lemma_reports_append_in_order(before: Seq<Guid>, reported: Seq<Guid>)
    ensures
        after_reports(before, reported) == before + reported,
    decreases reported.len(),
{
    if reported.len() > 0 {
        lemma_reports_append_in_order(before.push(reported[0]), reported.drop_first());
        assert(before.push(reported[0]) + reported.drop_first() =~= before + reported);
    }
}

/// Selection by name is a function of the list and the name: two results
/// that both meet `is_first_named` are the same.
pub proof fn lemma_selection_is_unique<T>(items: Seq<T>, name_of: spec_fn(T) -> Seq<char>, name: Seq<char>, a: Option<T>, b: Option<T>)
    requires
        is_first_named(items, name_of, name, a),
        is_first_named(items, name_of, name, b),
    ensures
        a == b,
{
    if a is Some && b is Some {
        let i = choose|i: int|
            0 <= i < items.len() && items[i] == a->0 && name_of(items[i]) == name
                && forall|j: int| 0 <= j < i ==> name_of(#[trigger] items[j]) != name;
        let k = choose|k: int|
            0 <= k < items.len() && items[k] == b->0 && name_of(items[k]) == name
                && forall|j: int| 0 <= j < k ==> name_of(#[trigger] items[j]) != name;
        if i < k {
            assert(name_of(items[i]) != name);
        } else if k < i {
            assert(name_of(items[k]) != name);
        }
    } else if a is Some {
        let i = choose|i: int|
            0 <= i < items.len() && items[i] == a->0 && name_of(items[i]) == name
                && forall|j: int| 0 <= j < i ==> name_of(#[trigger] items[j]) != name;
        assert(name_of(items[i]) != name);
    } else if b is Some {
        let k = choose|k: int|
            0 <= k < items.len() && items[k] == b->0 && name_of(items[k]) == name
                && forall|j: int| 0 <= j < k ==> name_of(#[trigger] items[j]) != name;
        assert(name_of(items[k]) != name);
    }
}

/// Selecting the name shown first (the first item's name) selects the first
/// item.
pub proof fn lemma_first_name_selects_first<T>(items: Seq<T>, name_of: spec_fn(T) -> Seq<char>)
    requires
        items.len() > 0,
    ensures
        is_first_named(items, name_of, name_of(items[0]), Some(items[0])),
{
    assert(items[0] == items[0] && name_of(items[0]) == name_of(items[0]));
}

} // verus!
