//! What a request must satisfy before anything is done for it.

use vstd::prelude::*;

use crate::app::error::AppError;
use crate::app::types::{
    BenchmarkRequest, CorePermissions, DiscoverRequest, PermissionKind, ReceiveRemoteRequest,
    ReceiveRequest, SendRemoteRequest, SendRequest, TransferOptions,
};
use crate::text::{chars_of, trim, trimmed};

verus! {

/// Whether something is allowed.
pub open spec fn granted(permissions: CorePermissions, kind: PermissionKind) -> bool {
    match kind {
        PermissionKind::LocalNetwork => permissions.local_network,
        PermissionKind::FileSystemRead => permissions.file_system_read,
        PermissionKind::FileSystemWrite => permissions.file_system_write,
        PermissionKind::BackgroundTransfer => permissions.background_transfer,
    }
}

/// What is wrong with a request, in the order in which it is found.
pub open spec fn first_fault(
    a: Option<AppError<Seq<char>>>,
    b: Option<AppError<Seq<char>>>,
) -> Option<AppError<Seq<char>>> {
    match a {
        Some(_) => a,
        None => b,
    }
}

/// What is wrong with a request that needs a permission.
pub open spec fn permission_fault(
    permissions: CorePermissions,
    kind: PermissionKind,
    operation: &'static str,
) -> Option<AppError<Seq<char>>> {
    if granted(permissions, kind) {
        None
    } else {
        Some(AppError::PermissionDenied { permission: kind, operation })
    }
}

/// What is wrong with how a transfer is tuned.
pub open spec fn options_fault(options: TransferOptions) -> Option<AppError<Seq<char>>> {
    if options.chunk_size == 0 {
        Some(AppError::InvalidRequest("chunk size must be greater than zero"@))
    } else if options.window_size == 0 {
        Some(AppError::InvalidRequest("window size must be greater than zero"@))
    } else {
        None
    }
}

/// What is wrong with where a remote transfer goes.
pub open spec fn remote_fault(
    relay_server_url: Seq<char>,
    session_id: Seq<char>,
    connect_timeout_secs: u64,
) -> Option<AppError<Seq<char>>> {
    if trimmed(relay_server_url).len() == 0 {
        Some(AppError::InvalidRequest("relay server url must not be empty"@))
    } else if trimmed(session_id).len() == 0 {
        Some(AppError::InvalidRequest("session id must not be empty"@))
    } else if connect_timeout_secs == 0 {
        Some(AppError::InvalidRequest("connect timeout must be greater than zero"@))
    } else {
        None
    }
}

/// What is wrong with a request to send on the local network.
pub open spec fn send_fault(request: SendRequest) -> Option<AppError<Seq<char>>> {
    first_fault(
        permission_fault(request.permissions, PermissionKind::FileSystemRead, "send_file"),
        first_fault(
            permission_fault(request.permissions, PermissionKind::LocalNetwork, "send_file"),
            options_fault(request.options),
        ),
    )
}

/// What is wrong with a request to receive on the local network.
pub open spec fn receive_fault(request: ReceiveRequest) -> Option<AppError<Seq<char>>> {
    first_fault(
        permission_fault(request.permissions, PermissionKind::FileSystemWrite, "receive_file"),
        first_fault(
            permission_fault(request.permissions, PermissionKind::LocalNetwork, "receive_file"),
            options_fault(request.options),
        ),
    )
}

/// What is wrong with a search for a peer.
pub open spec fn discover_fault(request: DiscoverRequest) -> Option<AppError<Seq<char>>> {
    first_fault(
        permission_fault(request.permissions, PermissionKind::LocalNetwork, "discover_peer"),
        if request.timeout_secs == 0 {
            Some(AppError::InvalidRequest("discover timeout must be greater than zero"@))
        } else {
            None
        },
    )
}

/// What is wrong with a request to send to a remote peer.
pub open spec fn send_remote_fault(request: SendRemoteRequest) -> Option<AppError<Seq<char>>> {
    first_fault(
        permission_fault(request.permissions, PermissionKind::FileSystemRead, "send_file_remote"),
        first_fault(
            remote_fault(
                request.relay_server_url@,
                request.session_id@,
                request.connect_timeout_secs,
            ),
            options_fault(request.options),
        ),
    )
}

/// What is wrong with a request to receive from a remote peer.
pub open spec fn receive_remote_fault(request: ReceiveRemoteRequest) -> Option<
    AppError<Seq<char>>,
> {
    first_fault(
        permission_fault(
            request.permissions,
            PermissionKind::FileSystemWrite,
            "receive_file_remote",
        ),
        first_fault(
            remote_fault(
                request.relay_server_url@,
                request.session_id@,
                request.connect_timeout_secs,
            ),
            options_fault(request.options),
        ),
    )
}

/// What is wrong with a measurement.
pub open spec fn benchmark_fault(request: BenchmarkRequest) -> Option<AppError<Seq<char>>> {
    if request.size_mb == 0 {
        Some(AppError::InvalidRequest("benchmark size must be greater than zero"@))
    } else if request.iterations == 0 {
        Some(AppError::InvalidRequest("benchmark iterations must be greater than zero"@))
    } else if request.options.chunk_size == 0 || request.options.window_size == 0 {
        Some(AppError::InvalidRequest("transfer tuning values must be greater than zero"@))
    } else {
        None
    }
}

/// Whether a check says what it should: an error exactly if there is a fault, and
/// then that fault.
pub open spec fn says(r: Result<(), AppError>, fault: Option<AppError<Seq<char>>>) -> bool {
    match r {
        Ok(_) => fault is None,
        Err(error) => fault == Some(error@),
    }
}

fn invalid(message: &str) -> (r: Result<(), AppError>)
    ensures
        says(r, Some(AppError::InvalidRequest(message@))),
{
    Err(AppError::InvalidRequest(message.to_string()))
}

/// Checks a permission.
pub fn require_permission(
    permissions: &CorePermissions,
    kind: PermissionKind,
    operation: &'static str,
) -> (r: Result<(), AppError>)
    ensures
        says(r, permission_fault(*permissions, kind, operation)),
{
    let allowed: bool = match kind {
        PermissionKind::LocalNetwork => permissions.local_network,
        PermissionKind::FileSystemRead => permissions.file_system_read,
        PermissionKind::FileSystemWrite => permissions.file_system_write,
        PermissionKind::BackgroundTransfer => permissions.background_transfer,
    };
    if allowed {
        Ok(())
    } else {
        Err(AppError::PermissionDenied { permission: kind, operation })
    }
}

/// Checks how a transfer is tuned.
pub fn validate_transfer_options(options: &TransferOptions) -> (r: Result<(), AppError>)
    ensures
        says(r, options_fault(*options)),
{
    if options.chunk_size == 0 {
        return invalid("chunk size must be greater than zero");
    }
    if options.window_size == 0 {
        return invalid("window size must be greater than zero");
    }
    Ok(())
}

fn is_blank(s: &str) -> (blank: bool)
    ensures
        blank == (trimmed(s@).len() == 0),
{
    let kept: String = trim(s);
    chars_of(kept.as_str()).len() == 0
}

/// Checks where a remote transfer goes.
pub fn validate_remote_request_fields(
    relay_server_url: &str,
    session_id: &str,
    connect_timeout_secs: u64,
) -> (r: Result<(), AppError>)
    ensures
        says(r, remote_fault(relay_server_url@, session_id@, connect_timeout_secs)),
{
    if is_blank(relay_server_url) {
        return invalid("relay server url must not be empty");
    }
    if is_blank(session_id) {
        return invalid("session id must not be empty");
    }
    if connect_timeout_secs == 0 {
        return invalid("connect timeout must be greater than zero");
    }
    Ok(())
}

/// Checks a request to send on the local network.
pub fn validate_send_request(request: &SendRequest) -> (r: Result<(), AppError>)
    ensures
        says(r, send_fault(*request)),
{
    match require_permission(&request.permissions, PermissionKind::FileSystemRead, "send_file") {
        Err(error) => return Err(error),
        Ok(()) => {},
    }
    match require_permission(&request.permissions, PermissionKind::LocalNetwork, "send_file") {
        Err(error) => return Err(error),
        Ok(()) => {},
    }
    validate_transfer_options(&request.options)
}

/// Checks a request to receive on the local network.
pub fn validate_receive_request(request: &ReceiveRequest) -> (r: Result<(), AppError>)
    ensures
        says(r, receive_fault(*request)),
{
    match require_permission(
        &request.permissions,
        PermissionKind::FileSystemWrite,
        "receive_file",
    ) {
        Err(error) => return Err(error),
        Ok(()) => {},
    }
    match require_permission(&request.permissions, PermissionKind::LocalNetwork, "receive_file") {
        Err(error) => return Err(error),
        Ok(()) => {},
    }
    validate_transfer_options(&request.options)
}

/// Checks a search for a peer.
pub fn validate_discover_request(request: &DiscoverRequest) -> (r: Result<(), AppError>)
    ensures
        says(r, discover_fault(*request)),
{
    match require_permission(&request.permissions, PermissionKind::LocalNetwork, "discover_peer") {
        Err(error) => return Err(error),
        Ok(()) => {},
    }
    if request.timeout_secs == 0 {
        return invalid("discover timeout must be greater than zero");
    }
    Ok(())
}

/// Checks a request to send to a remote peer.
pub fn validate_send_remote_request(request: &SendRemoteRequest) -> (r: Result<(), AppError>)
    ensures
        says(r, send_remote_fault(*request)),
{
    match require_permission(
        &request.permissions,
        PermissionKind::FileSystemRead,
        "send_file_remote",
    ) {
        Err(error) => return Err(error),
        Ok(()) => {},
    }
    match validate_remote_request_fields(
        request.relay_server_url.as_str(),
        request.session_id.as_str(),
        request.connect_timeout_secs,
    ) {
        Err(error) => return Err(error),
        Ok(()) => {},
    }
    validate_transfer_options(&request.options)
}

/// Checks a request to receive from a remote peer.
pub fn validate_receive_remote_request(request: &ReceiveRemoteRequest) -> (r: Result<
    (),
    AppError,
>)
    ensures
        says(r, receive_remote_fault(*request)),
{
    match require_permission(
        &request.permissions,
        PermissionKind::FileSystemWrite,
        "receive_file_remote",
    ) {
        Err(error) => return Err(error),
        Ok(()) => {},
    }
    match validate_remote_request_fields(
        request.relay_server_url.as_str(),
        request.session_id.as_str(),
        request.connect_timeout_secs,
    ) {
        Err(error) => return Err(error),
        Ok(()) => {},
    }
    validate_transfer_options(&request.options)
}

/// Checks a measurement.
pub fn validate_benchmark_request(request: &BenchmarkRequest) -> (r: Result<(), AppError>)
    ensures
        says(r, benchmark_fault(*request)),
{
    if request.size_mb == 0 {
        return invalid("benchmark size must be greater than zero");
    }
    if request.iterations == 0 {
        return invalid("benchmark iterations must be greater than zero");
    }
    if request.options.chunk_size == 0 || request.options.window_size == 0 {
        return invalid("transfer tuning values must be greater than zero");
    }
    Ok(())
}

/// A request to send on the local network is taken exactly if its files may be read, the
/// network may be used, and its chunks and its window are not empty. What is missing is
/// named, the permissions first.
pub proof fn law_sending_needs_what_it_uses(request: SendRequest)
    ensures
        send_fault(request) is None <==> {
            &&& request.permissions.file_system_read
            &&& request.permissions.local_network
            &&& request.options.chunk_size > 0
            &&& request.options.window_size > 0
        },
        !request.permissions.file_system_read ==> send_fault(request) == Some(
            AppError::<Seq<char>>::PermissionDenied {
                permission: PermissionKind::FileSystemRead,
                operation: "send_file",
            },
        ),
        request.permissions.file_system_read && !request.permissions.local_network ==> send_fault(
            request,
        ) == Some(
            AppError::<Seq<char>>::PermissionDenied {
                permission: PermissionKind::LocalNetwork,
                operation: "send_file",
            },
        ),
        request.permissions.file_system_read && request.permissions.local_network ==> (send_fault(
            request,
        ) matches Some(fault) ==> fault is InvalidRequest),
{
}

/// A request to receive on the local network is taken exactly if files may be written, the
/// network may be used, and its chunks and its window are not empty.
pub proof fn law_receiving_needs_what_it_uses(request: ReceiveRequest)
    ensures
        receive_fault(request) is None <==> {
            &&& request.permissions.file_system_write
            &&& request.permissions.local_network
            &&& request.options.chunk_size > 0
            &&& request.options.window_size > 0
        },
        !request.permissions.file_system_write ==> receive_fault(request) == Some(
            AppError::<Seq<char>>::PermissionDenied {
                permission: PermissionKind::FileSystemWrite,
                operation: "receive_file",
            },
        ),
        request.permissions.file_system_write && !request.permissions.local_network
            ==> receive_fault(request) == Some(
            AppError::<Seq<char>>::PermissionDenied {
                permission: PermissionKind::LocalNetwork,
                operation: "receive_file",
            },
        ),
        request.permissions.file_system_write && request.permissions.local_network ==> (
        receive_fault(request) matches Some(fault) ==> fault is InvalidRequest),
{
}

/// A remote request is taken exactly if its files may be read or written, it says where to
/// go and how long to wait, and its chunks and its window are not empty. The local network
/// is not asked for.
pub proof fn law_remote_requests_need_what_they_use(
    send: SendRemoteRequest,
    receive: ReceiveRemoteRequest,
)
    ensures
        send_remote_fault(send) is None <==> {
            &&& send.permissions.file_system_read
            &&& trimmed(send.relay_server_url@).len() > 0
            &&& trimmed(send.session_id@).len() > 0
            &&& send.connect_timeout_secs > 0
            &&& send.options.chunk_size > 0
            &&& send.options.window_size > 0
        },
        !send.permissions.file_system_read ==> send_remote_fault(send) == Some(
            AppError::<Seq<char>>::PermissionDenied {
                permission: PermissionKind::FileSystemRead,
                operation: "send_file_remote",
            },
        ),
        send.permissions.file_system_read ==> (send_remote_fault(send) matches Some(fault)
            ==> fault is InvalidRequest),
        receive_remote_fault(receive) is None <==> {
            &&& receive.permissions.file_system_write
            &&& trimmed(receive.relay_server_url@).len() > 0
            &&& trimmed(receive.session_id@).len() > 0
            &&& receive.connect_timeout_secs > 0
            &&& receive.options.chunk_size > 0
            &&& receive.options.window_size > 0
        },
        !receive.permissions.file_system_write ==> receive_remote_fault(receive) == Some(
            AppError::<Seq<char>>::PermissionDenied {
                permission: PermissionKind::FileSystemWrite,
                operation: "receive_file_remote",
            },
        ),
        receive.permissions.file_system_write ==> (receive_remote_fault(receive) matches Some(fault)
            ==> fault is InvalidRequest),
{
}

/// A search is taken exactly if the network may be used and it may take some time. A
/// measurement is taken exactly if it sends something, at least once, in chunks and over a
/// window that are not empty.
pub proof fn law_searches_and_measurements_are_checked(
    search: DiscoverRequest,
    measurement: BenchmarkRequest,
)
    ensures
        discover_fault(search) is None <==> search.permissions.local_network && search.timeout_secs
            > 0,
        !search.permissions.local_network ==> discover_fault(search) == Some(
            AppError::<Seq<char>>::PermissionDenied {
                permission: PermissionKind::LocalNetwork,
                operation: "discover_peer",
            },
        ),
        search.permissions.local_network ==> (discover_fault(search) matches Some(fault)
            ==> fault is InvalidRequest),
        benchmark_fault(measurement) is None <==> {
            &&& measurement.size_mb > 0
            &&& measurement.iterations > 0
            &&& measurement.options.chunk_size > 0
            &&& measurement.options.window_size > 0
        },
        benchmark_fault(measurement) matches Some(fault) ==> fault is InvalidRequest,
{
}

} // verus!
