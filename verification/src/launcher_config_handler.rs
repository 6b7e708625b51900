//! Model of the launcher configuration: where an application's root
//! directory lives.  An application's root is the root-level directory
//! named after the application, created the first time the application
//! asks for it.

use vstd::prelude::*;

use crate::client::Client;
use crate::errors::FfiError;
use crate::helper::find_or_create_root_child;
use crate::nfs::AccessLevel;
use crate::nfs::DirectoryKey;

verus! {

/// Returns the key of the application's root directory, creating it on
/// first use.  The application's identifier and vendor take no part in
/// where the directory lives; only its name does.
pub fn get_app_dir_key(
    client: &mut Client,
    app_name: &String,
    _app_id: &String,
    _vendor: &String,
) -> (r: Result<DirectoryKey, FfiError>)
    requires
        old(client).wf(),
    ensures
        final(client).wf(),
        final(client).account == old(client).account,
        final(client).services@ == old(client).services@,
        match r {
            Ok(key) => {
                &&& final(client).store.has_key(key)
                &&& final(client).store.dirs@[key.id as int].metadata.name@ == app_name@
                &&& final(client).store.dirs@[key.id as int].metadata.key == key
                &&& if old(client).store.dirs@[0].has_sub_dir(app_name@) {
                    &&& final(client).store == old(client).store
                    &&& 0 <= crate::nfs::first_sub_dir_from(
                        old(client).store.dirs@[0].sub_directories@,
                        app_name@,
                        0,
                    ) < old(client).store.dirs@[0].sub_directories@.len()
                    &&& key == old(client).store.dirs@[0].sub_directories@[
                        crate::nfs::first_sub_dir_from(
                            old(client).store.dirs@[0].sub_directories@,
                            app_name@,
                            0,
                        )
                    ].key
                } else {
                    &&& key == (DirectoryKey {
                        id: old(client).store.dirs@.len() as u64,
                        type_tag: 0,
                        versioned: false,
                        access_level: AccessLevel::Private,
                    })
                    &&& crate::nfs::spec_created_under(
                        old(client).store,
                        final(client).store,
                        0,
                        app_name@,
                        false,
                        AccessLevel::Private,
                    )
                }
            },
            Err(_) => false,
        },
{
    find_or_create_root_child(client, app_name)
}

} // verus!
