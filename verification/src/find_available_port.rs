use vstd::prelude::*;

verus! {

/// The first port in `start..end` that `is_available` accepts, trying them in
/// increasing order and stopping at the first one accepted. `is_available` may
/// answer differently from call to call (it usually tries to bind the port), so
/// the result is stated over the answers it gave.
pub fn first_available_port<F: Fn(u16) -> bool>(start: u16, end: u16, is_available: F) -> (found:
    Option<u16>)
    requires
        forall|port: u16| start <= port < end ==> is_available.requires((port,)),
    ensures
        match found {
            Some(port) => {
                &&& start <= port < end
                &&& is_available.ensures((port,), true)
                &&& forall|earlier: u16| start <= earlier < port ==> is_available.ensures((earlier,), false)
            },
            None => forall|port: u16| start <= port < end ==> is_available.ensures((port,), false),
        },
{
    let mut port = start;
    while port < end
        invariant
            start <= port,
            forall|p: u16| start <= p < end ==> is_available.requires((p,)),
            forall|earlier: u16| start <= earlier < port ==> is_available.ensures((earlier,), false),
        decreases end - port,
    {
        if is_available(port) {
            return Some(port);
        }
        port = port + 1;
    }
    None
}

/// The first port from 1025 up to 65534 that `is_available` accepts.
pub fn get<F: Fn(u16) -> bool>(is_available: F) -> (found: Option<u16>)
    requires
        forall|port: u16| 1025 <= port < 65535 ==> is_available.requires((port,)),
    ensures
        match found {
            Some(port) => {
                &&& 1025 <= port < 65535
                &&& is_available.ensures((port,), true)
                &&& forall|earlier: u16| 1025 <= earlier < port ==> is_available.ensures((earlier,), false)
            },
            None => forall|port: u16| 1025 <= port < 65535 ==> is_available.ensures((port,), false),
        },
{
    first_available_port(1025, 65535, is_available)
}

/// The first port from 8000 up to 8999 that `is_available` accepts.
pub fn get_available_port<F: Fn(u16) -> bool>(is_available: F) -> (found: Option<u16>)
    requires
        forall|port: u16| 8000 <= port < 9000 ==> is_available.requires((port,)),
    ensures
        match found {
            Some(port) => {
                &&& 8000 <= port < 9000
                &&& is_available.ensures((port,), true)
                &&& forall|earlier: u16| 8000 <= earlier < port ==> is_available.ensures((earlier,), false)
            },
            None => forall|port: u16| 8000 <= port < 9000 ==> is_available.ensures((port,), false),
        },
{
    first_available_port(8000, 9000, is_available)
}

} // verus!
