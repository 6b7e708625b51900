//! Model of the connection object that a session handle wraps.  The real
//! collaborator talks to the network; here the client holds as plain values
//! everything the dispatched commands read or write through it: the account
//! credentials it was established with, the directory store, and the
//! name-service records.

use vstd::prelude::*;

use crate::nfs::DirectoryKey;
use crate::nfs::DirectoryStore;

verus! {

/// Credentials a registered session was established with.
pub struct Account {
    /// The account keyword.
    pub keyword: String,
    /// The account pin.
    pub pin: String,
    /// The account password.
    pub password: String,
}

/// One name-service record: a service under a registered long name, pointing
/// at the directory that serves it.
pub struct DnsService {
    /// The registered long name.
    pub long_name: String,
    /// The service under that long name.
    pub service_name: String,
    /// Key of the directory holding the service's content.
    pub home_directory_key: DirectoryKey,
}

/// Asynchronous connection-state notifications which the event relay fans
/// out to registered observers.
#[derive(Clone, Copy, Debug, PartialEq, Eq, Structural)]
pub enum NetworkEvent {
    /// The connection is up.
    Connected,
    /// The connection is down.
    Disconnected,
    /// The session is being torn down; used as the relay's stop sentinel.
    Terminated,
}

impl NetworkEvent {
    /// The small integer code handed to observer callbacks for this event.
    pub open spec fn spec_ffi_code(self) -> int {
        match self {
            NetworkEvent::Connected => 0,
            NetworkEvent::Disconnected => 1,
            NetworkEvent::Terminated => 2,
        }
    }

    /// Converts this event to the code handed to observer callbacks.
    pub fn to_ffi_code(&self) -> (r: i32)
        ensures
            r as int == self.spec_ffi_code(),
    {
        match *self {
            NetworkEvent::Connected => 0,
            NetworkEvent::Disconnected => 1,
            NetworkEvent::Terminated => 2,
        }
    }
}

/// Two equal accounts, compared by views.
pub open spec fn account_eq(a: Account, b: Account) -> bool {
    a.keyword@ == b.keyword@ && a.pin@ == b.pin@ && a.password@ == b.password@
}

/// Two equal name-service records, compared by views.
pub open spec fn service_eq(a: DnsService, b: DnsService) -> bool {
    &&& a.long_name@ == b.long_name@
    &&& a.service_name@ == b.service_name@
    &&& a.home_directory_key == b.home_directory_key
}

/// Two equal clients: same account, same store, same records.
pub open spec fn client_eq(a: Client, b: Client) -> bool {
    &&& (a.account is Some <==> b.account is Some)
    &&& (a.account matches Some(x) ==> b.account matches Some(y) && account_eq(x, y))
    &&& crate::nfs::store_eq(a.store, b.store)
    &&& a.services@.len() == b.services@.len()
    &&& forall|i: int|
        0 <= i < a.services@.len() ==> service_eq(#[trigger] a.services@[i], b.services@[i])
}

impl Clone for Account {
    /// A clone carries the same credentials.
    fn clone(&self) -> (res: Self)
        ensures
            account_eq(*self, res),
    {
        Account {
            keyword: self.keyword.clone(),
            pin: self.pin.clone(),
            password: self.password.clone(),
        }
    }
}

impl Clone for DnsService {
    /// A clone names the same service and directory.
    fn clone(&self) -> (res: Self)
        ensures
            service_eq(*self, res),
    {
        DnsService {
            long_name: self.long_name.clone(),
            service_name: self.service_name.clone(),
            home_directory_key: self.home_directory_key,
        }
    }
}

/// The session's connection object.
pub struct Client {
    /// Credentials, for a registered session; `None` for an anonymous one.
    pub account: Option<Account>,
    /// The directory store the session operates on.
    pub store: DirectoryStore,
    /// The name-service records visible to the session.
    pub services: Vec<DnsService>,
}

impl Clone for Client {
    /// A clone is a session over the same account, store and records.
    fn clone(&self) -> (res: Self)
        ensures
            client_eq(*self, res),
    {
        let account = match &self.account {
            Some(a) => Some(a.clone()),
            None => None,
        };
        let res = Client { account, store: self.store.clone(), services: self.services.clone() };
        proof {
            assert forall|i: int| 0 <= i < self.services@.len() implies service_eq(
                #[trigger] self.services@[i],
                res.services@[i],
            ) by {
                assert(cloned::<DnsService>(self.services@[i], res.services@[i]));
            }
        }
        res
    }
}

impl Client {
    /// Well-formedness: the directory store is well-formed.
    pub open spec fn wf(self) -> bool {
        self.store.wf()
    }

    /// Establishes a fresh anonymous session.
    pub fn create_unregistered_client() -> (r: Client)
        ensures
            r.wf(),
            r.account is None,
            r.services@.len() == 0,
            r.store.dirs@.len() == 1,
    {
        Client { account: None, store: DirectoryStore::new_root(), services: Vec::new() }
    }

    /// Establishes a session for a newly created account under the given
    /// credentials.
    pub fn create_account(keyword: String, pin: String, password: String) -> (r: Client)
        ensures
            r.wf(),
            r.account matches Some(a) && a.keyword@ == keyword@ && a.pin@ == pin@ && a.password@
                == password@,
            r.services@.len() == 0,
            r.store.dirs@.len() == 1,
    {
        Client {
            account: Some(Account { keyword, pin, password }),
            store: DirectoryStore::new_root(),
            services: Vec::new(),
        }
    }

    /// Establishes a session for an existing account under the given
    /// credentials.
    pub fn log_in(keyword: String, pin: String, password: String) -> (r: Client)
        ensures
            r.wf(),
            r.account matches Some(a) && a.keyword@ == keyword@ && a.pin@ == pin@ && a.password@
                == password@,
            r.services@.len() == 0,
            r.store.dirs@.len() == 1,
    {
        Client {
            account: Some(Account { keyword, pin, password }),
            store: DirectoryStore::new_root(),
            services: Vec::new(),
        }
    }

    /// Records a name-service entry, as the name-registration collaborator
    /// would after a successful registration.
    pub fn add_service(&mut self, long_name: String, service_name: String, key: DirectoryKey)
        ensures
            final(self).services@.len() == old(self).services@.len() + 1,
            forall|i: int|
                0 <= i < old(self).services@.len() ==> final(self).services@[i] == old(
                    self,
                ).services@[i],
            final(self).services@.last().long_name@ == long_name@,
            final(self).services@.last().service_name@ == service_name@,
            final(self).services@.last().home_directory_key == key,
            final(self).account == old(self).account,
            final(self).store == old(self).store,
    {
        self.services.push(DnsService { long_name, service_name, home_directory_key: key });
    }
}

} // verus!
