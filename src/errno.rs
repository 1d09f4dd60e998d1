use vstd::prelude::*;

use crate::decimal::{append_decimal, decimal};

verus! {

/// `std::io::Error`, held opaque: only its error number is read.
#[verifier::external_type_specification]
#[verifier::external_body]
pub struct ExIoError(std::io::Error);

/// Relies on `std::io::Error::last_os_error`: an error made from the calling
/// thread's current `errno`. What it holds depends on the last failing call.
pub assume_specification[ std::io::Error::last_os_error ]() -> std::io::Error;

/// Relies on `std::io::Error::raw_os_error`: the operating-system error number
/// that the error was made from, if any. Nothing is stated of its value.
pub assume_specification[ std::io::Error::raw_os_error ](e: &std::io::Error) -> Option<i32>;

/// An operating-system error number, as the failing call left it in `errno`.
#[derive(Clone, Copy, Debug, PartialEq, Eq, Structural)]
pub struct Errno(pub i32);

/// A failure reported by this library.
#[derive(Clone, Copy, Debug, PartialEq, Eq, Structural)]
pub enum Error {
    /// An operating-system call failed with this error number.
    Sys(Errno),
    /// The operation has no meaning on this platform.
    UnsupportedOperation,
}

/// The text that describes an error number, as Linux numbers them on its
/// common architectures; `"unknown"` for a number without one.
pub open spec fn errno_text(code: i32) -> Seq<char> {
    match code {
        1i32 => "Operation not permitted"@,
        2i32 => "No such file or directory"@,
        3i32 => "No such process"@,
        4i32 => "Interrupted system call"@,
        5i32 => "I/O error"@,
        6i32 => "No such device or address"@,
        7i32 => "Argument list too long"@,
        8i32 => "Exec format error"@,
        9i32 => "Bad file number"@,
        10i32 => "No child processes"@,
        11i32 => "Try again"@,
        12i32 => "Out of memory"@,
        13i32 => "Permission denied"@,
        14i32 => "Bad address"@,
        15i32 => "Block device required"@,
        16i32 => "Device or resource busy"@,
        17i32 => "File exists"@,
        18i32 => "Cross-device link"@,
        19i32 => "No such device"@,
        20i32 => "Not a directory"@,
        21i32 => "Is a directory"@,
        22i32 => "Invalid argument"@,
        23i32 => "File table overflow"@,
        24i32 => "Too many open files"@,
        25i32 => "Not a typewriter"@,
        26i32 => "Text file busy"@,
        27i32 => "File too large"@,
        28i32 => "No space left on device"@,
        29i32 => "Illegal seek"@,
        30i32 => "Read-only file system"@,
        31i32 => "Too many links"@,
        32i32 => "Broken pipe"@,
        33i32 => "Math argument out of domain of func"@,
        34i32 => "Math result not representable"@,
        35i32 => "Resource deadlock would occur"@,
        36i32 => "File name too long"@,
        37i32 => "No record locks available"@,
        38i32 => "Function not implemented"@,
        39i32 => "Directory not empty"@,
        40i32 => "Too many symbolic links encountered"@,
        42i32 => "No message of desired type"@,
        43i32 => "Identifier removed"@,
        115i32 => "Operation now in progress"@,
        114i32 => "Operation already in progress"@,
        88i32 => "Socket operation on non-socket"@,
        89i32 => "Destination address required"@,
        90i32 => "Message too long"@,
        91i32 => "Protocol wrong type for socket"@,
        92i32 => "Protocol not available"@,
        93i32 => "Protocol not supported"@,
        94i32 => "Socket type not supported"@,
        96i32 => "Protocol family not supported"@,
        97i32 => "Address family not supported by protocol"@,
        98i32 => "Address already in use"@,
        99i32 => "Cannot assign requested address"@,
        100i32 => "Network is down"@,
        101i32 => "Network is unreachable"@,
        102i32 => "Network dropped connection because of reset"@,
        103i32 => "Software caused connection abort"@,
        104i32 => "Connection reset by peer"@,
        105i32 => "No buffer space available"@,
        106i32 => "Transport endpoint is already connected"@,
        107i32 => "Transport endpoint is not connected"@,
        108i32 => "Cannot send after transport endpoint shutdown"@,
        109i32 => "Too many references: cannot splice"@,
        110i32 => "Connection timed out"@,
        111i32 => "Connection refused"@,
        112i32 => "Host is down"@,
        113i32 => "No route to host"@,
        44i32 => "Channel number out of range"@,
        45i32 => "Level 2 not synchronized"@,
        46i32 => "Level 3 halted"@,
        47i32 => "Level 3 reset"@,
        48i32 => "Link number out of range"@,
        49i32 => "Protocol driver not attached"@,
        50i32 => "No CSI structure available"@,
        51i32 => "Level 2 halted"@,
        52i32 => "Invalid exchange"@,
        53i32 => "Invalid request descriptor"@,
        54i32 => "Exchange full"@,
        55i32 => "No anode"@,
        56i32 => "Invalid request code"@,
        57i32 => "Invalid slot"@,
        59i32 => "Bad font file format"@,
        60i32 => "Device not a stream"@,
        61i32 => "No data available"@,
        62i32 => "Timer expired"@,
        63i32 => "Out of streams resources"@,
        64i32 => "Machine is not on the network"@,
        65i32 => "Package not installed"@,
        66i32 => "Object is remote"@,
        67i32 => "Link has been severed"@,
        68i32 => "Advertise error"@,
        69i32 => "Srmount error"@,
        70i32 => "Communication error on send"@,
        71i32 => "Protocol error"@,
        72i32 => "Multihop attempted"@,
        73i32 => "RFS specific error"@,
        74i32 => "Not a data message"@,
        75i32 => "Value too large for defined data type"@,
        76i32 => "Name not unique on network"@,
        77i32 => "File descriptor in bad state"@,
        78i32 => "Remote address changed"@,
        79i32 => "Can not access a needed shared library"@,
        80i32 => "Accessing a corrupted shared library"@,
        81i32 => ".lib section in a.out corrupted"@,
        82i32 => "Attempting to link in too many shared libraries"@,
        83i32 => "Cannot exec a shared library directly"@,
        84i32 => "Illegal byte sequence"@,
        85i32 => "Interrupted system call should be restarted"@,
        86i32 => "Streams pipe error"@,
        87i32 => "Too many users"@,
        95i32 => "Operation not supported on transport endpoint"@,
        116i32 => "Stale file handle"@,
        117i32 => "Structure needs cleaning"@,
        118i32 => "Not a XENIX named type file"@,
        119i32 => "No XENIX semaphores available"@,
        120i32 => "Is a named type file"@,
        121i32 => "Remote I/O error"@,
        122i32 => "Quota exceeded"@,
        123i32 => "No medium found"@,
        124i32 => "Wrong medium type"@,
        125i32 => "Operation canceled"@,
        126i32 => "Required key not available"@,
        127i32 => "Key has expired"@,
        128i32 => "Key has been revoked"@,
        129i32 => "Key was rejected by service"@,
        130i32 => "Owner died"@,
        131i32 => "State not recoverable"@,
        132i32 => "Operation not possible due to RF-kill"@,
        133i32 => "Memory page has hardware error"@,
        _ => "unknown"@,
    }
}

/// How an error number is written in diagnostics: `Errno(13)`.
pub open spec fn errno_debug_text(e: Errno) -> Seq<char> {
    "Errno("@ + decimal(e.0 as int) + ")"@
}

/// The displayed form of an error number: `Errno(13): Permission denied`.
pub open spec fn errno_display_text(e: Errno) -> Seq<char> {
    errno_debug_text(e) + ": "@ + errno_text(e.0)
}

/// The displayed form of a failure: `Sys(Errno(13)): Permission denied`, or
/// `UnsupportedOperation: UnsupportedOperation`.
pub open spec fn error_display_text(err: Error) -> Seq<char> {
    match err {
        Error::Sys(e) => "Sys("@ + errno_debug_text(e) + ")"@ + ": "@ + errno_text(e.0),
        Error::UnsupportedOperation => "UnsupportedOperation: UnsupportedOperation"@,
    }
}

/// The error number that a failure carries, if it carries one.
pub open spec fn errno_of(err: Error) -> Option<Errno> {
    match err {
        Error::Sys(e) => Some(e),
        Error::UnsupportedOperation => None,
    }
}

impl Error {
    /// The error number of a system failure; `None` for an unsupported operation.
    pub fn as_errno(self) -> (r: Option<Errno>)
        ensures
            r == errno_of(self),
    {
        if let Error::Sys(e) = self {
            Some(e)
        } else {
            None
        }
    }

    /// The failure as it is displayed to a person.
    pub fn to_string(self) -> (r: String)
        ensures
            r@ == error_display_text(self),
    {
        match self {
            Error::Sys(e) => {
                proof {
                    reveal_strlit("Sys(");
                    reveal_strlit(")");
                }
                let mut s = String::from_str("Sys(");
                s.append(&e.debug_text());
                s.append(")");
                s.append(": ");
                s.append(e.desc());
                assert(s@ =~= error_display_text(self));
                s
            },
            Error::UnsupportedOperation => String::from_str("UnsupportedOperation: UnsupportedOperation"),
        }
    }
}

/// The value by which a call that returns this type reports a failure, after
/// which `errno` tells which one.
pub trait ErrnoBasis: Sized {
    spec fn spec_basis() -> Self;

    fn basis() -> (r: Self)
        ensures
            r == Self::spec_basis(),
    ;
}

impl ErrnoBasis for i32 {
    open spec fn spec_basis() -> i32 {
        -1i32
    }

    fn basis() -> (r: i32) {
        -1
    }
}

impl Errno {
    /// The calling thread's current error number; 0 where the system gives none.
    pub fn last() -> (r: Errno) {
        match std::io::Error::last_os_error().raw_os_error() {
            Some(code) => Errno(code),
            None => Errno(0),
        }
    }

    /// The text that describes this error number.
    pub fn desc(self) -> (r: &'static str)
        ensures
            r@ == errno_text(self.0),
    {
        desc(self)
    }

    pub fn from_i32(err: i32) -> (r: Errno)
        ensures
            r.0 == err,
    {
        from_i32(err)
    }

    /// Reads the return value of an operating-system call: the failure value
    /// (-1) becomes a system failure with the calling thread's current error
    /// number, any other value is handed back as a success.
    ///
    /// Call it at once after the call, before anything else can change `errno`.
    pub fn result(value: i32) -> (r: Result<i32, Error>)
        ensures
            value != -1 ==> r == Ok::<i32, Error>(value),
            value == -1 ==> (r matches Err(Error::Sys(_))),
    {
        if value == i32::basis() {
            Err(Error::Sys(Self::last()))
        } else {
            Ok(value)
        }
    }

    /// The error number as written in diagnostics: `Errno(13)`.
    pub fn debug_text(self) -> (r: String)
        ensures
            r@ == errno_debug_text(self),
    {
        proof {
            reveal_strlit("Errno(");
            reveal_strlit(")");
        }
        let mut s = String::from_str("Errno(");
        append_decimal(&mut s, self.0);
        s.append(")");
        assert(s@ =~= errno_debug_text(self));
        s
    }

    /// The error number as it is displayed to a person: `Errno(13): Permission denied`.
    pub fn to_string(self) -> (r: String)
        ensures
            r@ == errno_display_text(self),
    {
        let mut s = self.debug_text();
        s.append(": ");
        s.append(self.desc());
        assert(s@ =~= errno_display_text(self));
        s
    }
}

fn from_i32(e: i32) -> (r: Errno)
    ensures
        r.0 == e,
{
    Errno(e)
}

/// Looks up the text of an error number; every number has one.
fn desc(errno: Errno) -> (r: &'static str)
    ensures
        r@ == errno_text(errno.0),
{
    match errno.0 {
        1 => "Operation not permitted",
        2 => "No such file or directory",
        3 => "No such process",
        4 => "Interrupted system call",
        5 => "I/O error",
        6 => "No such device or address",
        7 => "Argument list too long",
        8 => "Exec format error",
        9 => "Bad file number",
        10 => "No child processes",
        11 => "Try again",
        12 => "Out of memory",
        13 => "Permission denied",
        14 => "Bad address",
        15 => "Block device required",
        16 => "Device or resource busy",
        17 => "File exists",
        18 => "Cross-device link",
        19 => "No such device",
        20 => "Not a directory",
        21 => "Is a directory",
        22 => "Invalid argument",
        23 => "File table overflow",
        24 => "Too many open files",
        25 => "Not a typewriter",
        26 => "Text file busy",
        27 => "File too large",
        28 => "No space left on device",
        29 => "Illegal seek",
        30 => "Read-only file system",
        31 => "Too many links",
        32 => "Broken pipe",
        33 => "Math argument out of domain of func",
        34 => "Math result not representable",
        35 => "Resource deadlock would occur",
        36 => "File name too long",
        37 => "No record locks available",
        38 => "Function not implemented",
        39 => "Directory not empty",
        40 => "Too many symbolic links encountered",
        42 => "No message of desired type",
        43 => "Identifier removed",
        115 => "Operation now in progress",
        114 => "Operation already in progress",
        88 => "Socket operation on non-socket",
        89 => "Destination address required",
        90 => "Message too long",
        91 => "Protocol wrong type for socket",
        92 => "Protocol not available",
        93 => "Protocol not supported",
        94 => "Socket type not supported",
        96 => "Protocol family not supported",
        97 => "Address family not supported by protocol",
        98 => "Address already in use",
        99 => "Cannot assign requested address",
        100 => "Network is down",
        101 => "Network is unreachable",
        102 => "Network dropped connection because of reset",
        103 => "Software caused connection abort",
        104 => "Connection reset by peer",
        105 => "No buffer space available",
        106 => "Transport endpoint is already connected",
        107 => "Transport endpoint is not connected",
        108 => "Cannot send after transport endpoint shutdown",
        109 => "Too many references: cannot splice",
        110 => "Connection timed out",
        111 => "Connection refused",
        112 => "Host is down",
        113 => "No route to host",
        44 => "Channel number out of range",
        45 => "Level 2 not synchronized",
        46 => "Level 3 halted",
        47 => "Level 3 reset",
        48 => "Link number out of range",
        49 => "Protocol driver not attached",
        50 => "No CSI structure available",
        51 => "Level 2 halted",
        52 => "Invalid exchange",
        53 => "Invalid request descriptor",
        54 => "Exchange full",
        55 => "No anode",
        56 => "Invalid request code",
        57 => "Invalid slot",
        59 => "Bad font file format",
        60 => "Device not a stream",
        61 => "No data available",
        62 => "Timer expired",
        63 => "Out of streams resources",
        64 => "Machine is not on the network",
        65 => "Package not installed",
        66 => "Object is remote",
        67 => "Link has been severed",
        68 => "Advertise error",
        69 => "Srmount error",
        70 => "Communication error on send",
        71 => "Protocol error",
        72 => "Multihop attempted",
        73 => "RFS specific error",
        74 => "Not a data message",
        75 => "Value too large for defined data type",
        76 => "Name not unique on network",
        77 => "File descriptor in bad state",
        78 => "Remote address changed",
        79 => "Can not access a needed shared library",
        80 => "Accessing a corrupted shared library",
        81 => ".lib section in a.out corrupted",
        82 => "Attempting to link in too many shared libraries",
        83 => "Cannot exec a shared library directly",
        84 => "Illegal byte sequence",
        85 => "Interrupted system call should be restarted",
        86 => "Streams pipe error",
        87 => "Too many users",
        95 => "Operation not supported on transport endpoint",
        116 => "Stale file handle",
        117 => "Structure needs cleaning",
        118 => "Not a XENIX named type file",
        119 => "No XENIX semaphores available",
        120 => "Is a named type file",
        121 => "Remote I/O error",
        122 => "Quota exceeded",
        123 => "No medium found",
        124 => "Wrong medium type",
        125 => "Operation canceled",
        126 => "Required key not available",
        127 => "Key has expired",
        128 => "Key has been revoked",
        129 => "Key was rejected by service",
        130 => "Owner died",
        131 => "State not recoverable",
        132 => "Operation not possible due to RF-kill",
        133 => "Memory page has hardware error",
        _ => "unknown",
    }
}

/// Every error number has a text, and none of them is empty.
pub proof fn lemma_errno_text_nonempty(code: i32)
    ensures
        errno_text(code).len() > 0,
{
    reveal_strlit("Operation not permitted");
    reveal_strlit("No such file or directory");
    reveal_strlit("No such process");
    reveal_strlit("Interrupted system call");
    reveal_strlit("I/O error");
    reveal_strlit("No such device or address");
    reveal_strlit("Argument list too long");
    reveal_strlit("Exec format error");
    reveal_strlit("Bad file number");
    reveal_strlit("No child processes");
    reveal_strlit("Try again");
    reveal_strlit("Out of memory");
    reveal_strlit("Permission denied");
    reveal_strlit("Bad address");
    reveal_strlit("Block device required");
    reveal_strlit("Device or resource busy");
    reveal_strlit("File exists");
    reveal_strlit("Cross-device link");
    reveal_strlit("No such device");
    reveal_strlit("Not a directory");
    reveal_strlit("Is a directory");
    reveal_strlit("Invalid argument");
    reveal_strlit("File table overflow");
    reveal_strlit("Too many open files");
    reveal_strlit("Not a typewriter");
    reveal_strlit("Text file busy");
    reveal_strlit("File too large");
    reveal_strlit("No space left on device");
    reveal_strlit("Illegal seek");
    reveal_strlit("Read-only file system");
    reveal_strlit("Too many links");
    reveal_strlit("Broken pipe");
    reveal_strlit("Math argument out of domain of func");
    reveal_strlit("Math result not representable");
    reveal_strlit("Resource deadlock would occur");
    reveal_strlit("File name too long");
    reveal_strlit("No record locks available");
    reveal_strlit("Function not implemented");
    reveal_strlit("Directory not empty");
    reveal_strlit("Too many symbolic links encountered");
    reveal_strlit("No message of desired type");
    reveal_strlit("Identifier removed");
    reveal_strlit("Operation now in progress");
    reveal_strlit("Operation already in progress");
    reveal_strlit("Socket operation on non-socket");
    reveal_strlit("Destination address required");
    reveal_strlit("Message too long");
    reveal_strlit("Protocol wrong type for socket");
    reveal_strlit("Protocol not available");
    reveal_strlit("Protocol not supported");
    reveal_strlit("Socket type not supported");
    reveal_strlit("Protocol family not supported");
    reveal_strlit("Address family not supported by protocol");
    reveal_strlit("Address already in use");
    reveal_strlit("Cannot assign requested address");
    reveal_strlit("Network is down");
    reveal_strlit("Network is unreachable");
    reveal_strlit("Network dropped connection because of reset");
    reveal_strlit("Software caused connection abort");
    reveal_strlit("Connection reset by peer");
    reveal_strlit("No buffer space available");
    reveal_strlit("Transport endpoint is already connected");
    reveal_strlit("Transport endpoint is not connected");
    reveal_strlit("Cannot send after transport endpoint shutdown");
    reveal_strlit("Too many references: cannot splice");
    reveal_strlit("Connection timed out");
    reveal_strlit("Connection refused");
    reveal_strlit("Host is down");
    reveal_strlit("No route to host");
    reveal_strlit("Channel number out of range");
    reveal_strlit("Level 2 not synchronized");
    reveal_strlit("Level 3 halted");
    reveal_strlit("Level 3 reset");
    reveal_strlit("Link number out of range");
    reveal_strlit("Protocol driver not attached");
    reveal_strlit("No CSI structure available");
    reveal_strlit("Level 2 halted");
    reveal_strlit("Invalid exchange");
    reveal_strlit("Invalid request descriptor");
    reveal_strlit("Exchange full");
    reveal_strlit("No anode");
    reveal_strlit("Invalid request code");
    reveal_strlit("Invalid slot");
    reveal_strlit("Bad font file format");
    reveal_strlit("Device not a stream");
    reveal_strlit("No data available");
    reveal_strlit("Timer expired");
    reveal_strlit("Out of streams resources");
    reveal_strlit("Machine is not on the network");
    reveal_strlit("Package not installed");
    reveal_strlit("Object is remote");
    reveal_strlit("Link has been severed");
    reveal_strlit("Advertise error");
    reveal_strlit("Srmount error");
    reveal_strlit("Communication error on send");
    reveal_strlit("Protocol error");
    reveal_strlit("Multihop attempted");
    reveal_strlit("RFS specific error");
    reveal_strlit("Not a data message");
    reveal_strlit("Value too large for defined data type");
    reveal_strlit("Name not unique on network");
    reveal_strlit("File descriptor in bad state");
    reveal_strlit("Remote address changed");
    reveal_strlit("Can not access a needed shared library");
    reveal_strlit("Accessing a corrupted shared library");
    reveal_strlit(".lib section in a.out corrupted");
    reveal_strlit("Attempting to link in too many shared libraries");
    reveal_strlit("Cannot exec a shared library directly");
    reveal_strlit("Illegal byte sequence");
    reveal_strlit("Interrupted system call should be restarted");
    reveal_strlit("Streams pipe error");
    reveal_strlit("Too many users");
    reveal_strlit("Operation not supported on transport endpoint");
    reveal_strlit("Stale file handle");
    reveal_strlit("Structure needs cleaning");
    reveal_strlit("Not a XENIX named type file");
    reveal_strlit("No XENIX semaphores available");
    reveal_strlit("Is a named type file");
    reveal_strlit("Remote I/O error");
    reveal_strlit("Quota exceeded");
    reveal_strlit("No medium found");
    reveal_strlit("Wrong medium type");
    reveal_strlit("Operation canceled");
    reveal_strlit("Required key not available");
    reveal_strlit("Key has expired");
    reveal_strlit("Key has been revoked");
    reveal_strlit("Key was rejected by service");
    reveal_strlit("Owner died");
    reveal_strlit("State not recoverable");
    reveal_strlit("Operation not possible due to RF-kill");
    reveal_strlit("Memory page has hardware error");
    reveal_strlit("unknown");
}

} // verus!
