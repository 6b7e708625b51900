//! The name-service command family: looking a service up under a
//! registered long name, and the actions resolved under the `dns` module
//! of a request envelope.

pub mod get_file;

use vstd::prelude::*;

use crate::client::Client;
use crate::client::DnsService;
use crate::errors::DnsError;
use crate::errors::FfiError;
use crate::json_support::json_bool_field_of;
use crate::json_support::json_i64_field_of;
use crate::json_support::json_string_field_of;
use crate::nfs::DirectoryKey;
use crate::ParameterPacket;
use crate::ResponseType;

verus! {

use vstd::string::StringExecFns;

/// Whether some record carries this long name.
pub open spec fn has_long_name(services: Seq<DnsService>, long_name: Seq<char>) -> bool {
    exists|j: int| 0 <= j < services.len() && services[j].long_name@ == long_name
}

/// Whether some record carries this long name and service.
pub open spec fn has_service(
    services: Seq<DnsService>,
    long_name: Seq<char>,
    service_name: Seq<char>,
) -> bool {
    exists|j: int|
        0 <= j < services.len() && services[j].long_name@ == long_name
            && services[j].service_name@ == service_name
}

/// Position of the first record at or after `from` carrying this long name
/// and service, or -1 where there is none.
pub open spec fn first_service_from(
    services: Seq<DnsService>,
    long_name: Seq<char>,
    service_name: Seq<char>,
    from: int,
) -> int
    decreases services.len() - from,
{
    if from < 0 || from >= services.len() {
        -1
    } else if services[from].long_name@ == long_name && services[from].service_name@
        == service_name {
        from
    } else {
        first_service_from(services, long_name, service_name, from + 1)
    }
}

/// The name-service operations over one session, as the collaborating
/// subsystem offers them.
pub struct DnsOperations<'a> {
    /// The session the operations run against.
    pub client: &'a Client,
}

impl<'a> DnsOperations<'a> {
    /// Opens the name-service operations over this session.
    pub fn new(client: &'a Client) -> (r: DnsOperations<'a>)
        ensures
            r.client == client,
    {
        DnsOperations { client }
    }

    /// The key of the directory serving `service_name` under `long_name`.
    /// An unregistered long name is the subsystem's "record not found"; a
    /// registered long name without the service is "service not found".
    pub fn get_service_home_directory_key(
        &self,
        long_name: &String,
        service_name: &String,
    ) -> (r: Result<DirectoryKey, FfiError>)
        ensures
            ({
                let services = self.client.services@;
                match r {
                    Ok(k) => {
                        &&& has_service(services, long_name@, service_name@)
                        &&& 0 <= first_service_from(services, long_name@, service_name@, 0)
                            < services.len()
                        &&& k == services[first_service_from(
                            services,
                            long_name@,
                            service_name@,
                            0,
                        )].home_directory_key
                    },
                    Err(e) => {
                        &&& !has_service(services, long_name@, service_name@)
                        &&& if has_long_name(services, long_name@) {
                            e == FfiError::DnsError(DnsError::ServiceNotFound)
                        } else {
                            e == FfiError::DnsError(DnsError::DnsRecordNotFound)
                        }
                    },
                }
            }),
    {
        let n = self.client.services.len();
        let mut j: usize = 0;
        while j < n
            invariant
                n == self.client.services@.len(),
                j <= n,
                forall|k: int|
                    0 <= k < j ==> !((#[trigger] self.client.services@[k]).long_name@ == long_name@
                        && self.client.services@[k].service_name@ == service_name@),
                first_service_from(self.client.services@, long_name@, service_name@, 0)
                    == first_service_from(
                    self.client.services@,
                    long_name@,
                    service_name@,
                    j as int,
                ),
            decreases n - j,
        {
            let svc = &self.client.services[j];
            if svc.long_name.eq(long_name) && svc.service_name.eq(service_name) {
                return Ok(svc.home_directory_key);
            }
            j += 1;
        }
        let mut k: usize = 0;
        while k < n
            invariant
                n == self.client.services@.len(),
                k <= n,
                forall|i: int|
                    0 <= i < k ==> (#[trigger] self.client.services@[i]).long_name@ != long_name@,
                !has_service(self.client.services@, long_name@, service_name@),
            decreases n - k,
        {
            if self.client.services[k].long_name.eq(long_name) {
                return Err(FfiError::DnsError(DnsError::ServiceNotFound));
            }
            k += 1;
        }
        Err(FfiError::DnsError(DnsError::DnsRecordNotFound))
    }
}

/// The exact behaviour of the name-service family on a request: the one
/// action the name resolves to, its seven required fields as they come out
/// of the payload text, and the resolved operation's own outcome.  An
/// unknown action, and a missing or wrongly-typed field, are terminal for
/// the request only.
pub open spec fn spec_dns_dispatch(
    action: Seq<char>,
    s: Seq<char>,
    p0: ParameterPacket,
    p1: ParameterPacket,
    r: ResponseType,
) -> bool {
    if action == "get_file"@ {
        let long_name = json_string_field_of(s, "long_name"@);
        let service_name = json_string_field_of(s, "service_name"@);
        let offset = json_i64_field_of(s, "offset"@);
        let length = json_i64_field_of(s, "length"@);
        let file_path = json_string_field_of(s, "file_path"@);
        let is_path_shared = json_bool_field_of(s, "is_path_shared"@);
        let include_metadata = json_bool_field_of(s, "include_metadata"@);
        if long_name is Some && service_name is Some && offset is Some && length is Some
            && file_path is Some && is_path_shared is Some && include_metadata is Some {
            get_file::spec_get_file_outcome(
                long_name.unwrap(),
                service_name.unwrap(),
                offset.unwrap() as int,
                length.unwrap() as int,
                file_path.unwrap(),
                include_metadata.unwrap(),
                p0,
                p1,
                r,
            )
        } else {
            p1 == p0 && (r matches Err(e) && (e matches FfiError::Unexpected(m) && m@ == ""@))
        }
    } else {
        p1 == p0 && (r matches Err(e) && (e matches FfiError::Unexpected(m) && m@
            == "not implemented"@))
    }
}

/// Routes an action of the name-service family, behaving exactly as
/// `spec_dns_dispatch` states.
pub fn action_dispatcher(action: &String, params: &mut ParameterPacket, payload: &str) -> (r:
    ResponseType)
    requires
        old(params).client.wf(),
    ensures
        final(params).client.wf(),
        *final(params) == *old(params),
        spec_dns_dispatch(action@, payload@, *old(params), *final(params), r),
{
    let get = String::from_str("get_file");
    if action.eq(&get) {
        let mut op = match get_file::GetFile::decode(payload) {
            Ok(op) => op,
            Err(e) => {
                return Err(e);
            },
        };
        get_file::GetFile::execute(&mut op, params)
    } else {
        Err(FfiError::unexpected("not implemented"))
    }
}

} // verus!
