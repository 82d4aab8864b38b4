//! Codes shared with the broker library: statuses, body kinds, destination kinds and modes.
//!
//! Each enum lists the names the broker library uses; `code` gives the number that stands
//! for a name on the wire and `from_code` finds the name of a number.

use vstd::prelude::*;

verus! {

/// Body kinds that a message can have.
#[allow(non_camel_case_types)]
#[derive(Debug, Clone, Copy, PartialEq, Eq, Structural)]
pub enum tibemsMsgType {
    /// Unknown body.
    TIBEMS_MESSAGE_UNKNOWN,
    /// Generic message.
    TIBEMS_MESSAGE,
    /// Binary message.
    TIBEMS_BYTES_MESSAGE,
    /// Map message.
    TIBEMS_MAP_MESSAGE,
    /// Serialized object message.
    TIBEMS_OBJECT_MESSAGE,
    /// Streaming message.
    TIBEMS_STREAM_MESSAGE,
    /// Text message.
    TIBEMS_TEXT_MESSAGE,
    /// Undefined.
    TIBEMS_MESSAGE_UNDEFINED,
}

impl tibemsMsgType {
    /// The number that stands for this name.
    pub open spec fn code_of(self) -> int {
        match self {
            tibemsMsgType::TIBEMS_MESSAGE_UNKNOWN => 0,
            tibemsMsgType::TIBEMS_MESSAGE => 1,
            tibemsMsgType::TIBEMS_BYTES_MESSAGE => 2,
            tibemsMsgType::TIBEMS_MAP_MESSAGE => 3,
            tibemsMsgType::TIBEMS_OBJECT_MESSAGE => 4,
            tibemsMsgType::TIBEMS_STREAM_MESSAGE => 5,
            tibemsMsgType::TIBEMS_TEXT_MESSAGE => 6,
            tibemsMsgType::TIBEMS_MESSAGE_UNDEFINED => 256,
        }
    }

    /// The body kind as a number.
    pub fn code(&self) -> (r: i32)
        ensures
            r == self.code_of(),
    {
        match self {
            tibemsMsgType::TIBEMS_MESSAGE_UNKNOWN => 0,
            tibemsMsgType::TIBEMS_MESSAGE => 1,
            tibemsMsgType::TIBEMS_BYTES_MESSAGE => 2,
            tibemsMsgType::TIBEMS_MAP_MESSAGE => 3,
            tibemsMsgType::TIBEMS_OBJECT_MESSAGE => 4,
            tibemsMsgType::TIBEMS_STREAM_MESSAGE => 5,
            tibemsMsgType::TIBEMS_TEXT_MESSAGE => 6,
            tibemsMsgType::TIBEMS_MESSAGE_UNDEFINED => 256,
        }
    }

    /// The body kind that a number stands for, if it stands for any.
    pub fn from_code(code: i32) -> (r: Option<Self>)
        ensures
            match r {
                Some(s) => s.code_of() == code,
                None => forall|s: Self| s.code_of() != code,
            },
    {
        match code {
            0 => Some(tibemsMsgType::TIBEMS_MESSAGE_UNKNOWN),
            1 => Some(tibemsMsgType::TIBEMS_MESSAGE),
            2 => Some(tibemsMsgType::TIBEMS_BYTES_MESSAGE),
            3 => Some(tibemsMsgType::TIBEMS_MAP_MESSAGE),
            4 => Some(tibemsMsgType::TIBEMS_OBJECT_MESSAGE),
            5 => Some(tibemsMsgType::TIBEMS_STREAM_MESSAGE),
            6 => Some(tibemsMsgType::TIBEMS_TEXT_MESSAGE),
            256 => Some(tibemsMsgType::TIBEMS_MESSAGE_UNDEFINED),
            _ => None,
        }
    }

    /// No two names are stood for by the same number.
    pub proof fn law_codes_differ(a: Self, b: Self)
        ensures
            a.code_of() == b.code_of() ==> a == b,
    {
    }
}

/// Kinds of destination.
#[allow(non_camel_case_types)]
#[derive(Debug, Clone, Copy, PartialEq, Eq, Structural)]
pub enum tibemsDestinationType {
    /// Unknown.
    TIBEMS_UNKNOWN,
    /// A queue.
    TIBEMS_QUEUE,
    /// A topic.
    TIBEMS_TOPIC,
    /// Undefined.
    TIBEMS_DEST_UNDEFINED,
}

impl tibemsDestinationType {
    /// The number that stands for this name.
    pub open spec fn code_of(self) -> int {
        match self {
            tibemsDestinationType::TIBEMS_UNKNOWN => 0,
            tibemsDestinationType::TIBEMS_QUEUE => 1,
            tibemsDestinationType::TIBEMS_TOPIC => 2,
            tibemsDestinationType::TIBEMS_DEST_UNDEFINED => 256,
        }
    }

    /// The destination kind as a number.
    pub fn code(&self) -> (r: i32)
        ensures
            r == self.code_of(),
    {
        match self {
            tibemsDestinationType::TIBEMS_UNKNOWN => 0,
            tibemsDestinationType::TIBEMS_QUEUE => 1,
            tibemsDestinationType::TIBEMS_TOPIC => 2,
            tibemsDestinationType::TIBEMS_DEST_UNDEFINED => 256,
        }
    }

    /// The destination kind that a number stands for, if it stands for any.
    pub fn from_code(code: i32) -> (r: Option<Self>)
        ensures
            match r {
                Some(s) => s.code_of() == code,
                None => forall|s: Self| s.code_of() != code,
            },
    {
        match code {
            0 => Some(tibemsDestinationType::TIBEMS_UNKNOWN),
            1 => Some(tibemsDestinationType::TIBEMS_QUEUE),
            2 => Some(tibemsDestinationType::TIBEMS_TOPIC),
            256 => Some(tibemsDestinationType::TIBEMS_DEST_UNDEFINED),
            _ => None,
        }
    }

    /// No two names are stood for by the same number.
    pub proof fn law_codes_differ(a: Self, b: Self)
        ensures
            a.code_of() == b.code_of() ==> a == b,
    {
    }
}

/// Boolean as the broker library passes it.
#[allow(non_camel_case_types)]
#[derive(Debug, Clone, Copy, PartialEq, Eq, Structural)]
pub enum tibems_bool {
    /// False.
    TIBEMS_FALSE,
    /// True.
    TIBEMS_TRUE,
}

impl tibems_bool {
    /// The number that stands for this name.
    pub open spec fn code_of(self) -> int {
        match self {
            tibems_bool::TIBEMS_FALSE => 0,
            tibems_bool::TIBEMS_TRUE => 1,
        }
    }

    /// The boolean as a number.
    pub fn code(&self) -> (r: i32)
        ensures
            r == self.code_of(),
    {
        match self {
            tibems_bool::TIBEMS_FALSE => 0,
            tibems_bool::TIBEMS_TRUE => 1,
        }
    }

    /// The boolean that a number stands for, if it stands for any.
    pub fn from_code(code: i32) -> (r: Option<Self>)
        ensures
            match r {
                Some(s) => s.code_of() == code,
                None => forall|s: Self| s.code_of() != code,
            },
    {
        match code {
            0 => Some(tibems_bool::TIBEMS_FALSE),
            1 => Some(tibems_bool::TIBEMS_TRUE),
            _ => None,
        }
    }

    /// No two names are stood for by the same number.
    pub proof fn law_codes_differ(a: Self, b: Self)
        ensures
            a.code_of() == b.code_of() ==> a == b,
    {
    }
}

/// Which destinations a listing covers, by permanence.
#[allow(non_camel_case_types)]
#[derive(Debug, Clone, Copy, PartialEq, Eq, Structural)]
pub enum tibems_permType {
    /// Static destinations.
    TIBEMS_DEST_GET_STATIC,
    /// Dynamic destinations.
    TIBEMS_DEST_GET_DYNAMIC,
    /// All destinations but the temporary ones.
    TIBEMS_DEST_GET_NOTEMP,
    /// All destinations.
    TIBEMS_DEST_GET_ALL,
}

impl tibems_permType {
    /// The number that stands for this name.
    pub open spec fn code_of(self) -> int {
        match self {
            tibems_permType::TIBEMS_DEST_GET_STATIC => 1,
            tibems_permType::TIBEMS_DEST_GET_DYNAMIC => 2,
            tibems_permType::TIBEMS_DEST_GET_NOTEMP => 3,
            tibems_permType::TIBEMS_DEST_GET_ALL => 4,
        }
    }

    /// The permanence type as a number.
    pub fn code(&self) -> (r: i32)
        ensures
            r == self.code_of(),
    {
        match self {
            tibems_permType::TIBEMS_DEST_GET_STATIC => 1,
            tibems_permType::TIBEMS_DEST_GET_DYNAMIC => 2,
            tibems_permType::TIBEMS_DEST_GET_NOTEMP => 3,
            tibems_permType::TIBEMS_DEST_GET_ALL => 4,
        }
    }

    /// The permanence type that a number stands for, if it stands for any.
    pub fn from_code(code: i32) -> (r: Option<Self>)
        ensures
            match r {
                Some(s) => s.code_of() == code,
                None => forall|s: Self| s.code_of() != code,
            },
    {
        match code {
            1 => Some(tibems_permType::TIBEMS_DEST_GET_STATIC),
            2 => Some(tibems_permType::TIBEMS_DEST_GET_DYNAMIC),
            3 => Some(tibems_permType::TIBEMS_DEST_GET_NOTEMP),
            4 => Some(tibems_permType::TIBEMS_DEST_GET_ALL),
            _ => None,
        }
    }

    /// No two names are stood for by the same number.
    pub proof fn law_codes_differ(a: Self, b: Self)
        ensures
            a.code_of() == b.code_of() ==> a == b,
    {
    }
}

/// Acknowledge modes that a session can be created with.
#[allow(non_camel_case_types)]
#[derive(Debug, Clone, Copy, PartialEq, Eq, Structural)]
pub enum tibemsAcknowledgeMode {
    /// The session is transacted.
    TIBEMS_SESSION_TRANSACTED,
    /// The session acknowledges a message by itself when the message was processed.
    TIBEMS_AUTO_ACKNOWLEDGE,
    /// The client acknowledges; each call acknowledges all messages received so far.
    TIBEMS_CLIENT_ACKNOWLEDGE,
    /// The session acknowledges by itself, and may do so lazily.
    TIBEMS_DUPS_OK_ACKNOWLEDGE,
    /// Messages need no acknowledgement.
    TIBEMS_NO_ACKNOWLEDGE,
    /// The client acknowledges each message on its own.
    TIBEMS_EXPLICIT_CLIENT_ACKNOWLEDGE,
    /// The client acknowledges each message on its own, lazily.
    TIBEMS_EXPLICIT_CLIENT_DUPS_OK_ACKNOWLEDGE,
}

impl tibemsAcknowledgeMode {
    /// The number that stands for this name.
    pub open spec fn code_of(self) -> int {
        match self {
            tibemsAcknowledgeMode::TIBEMS_SESSION_TRANSACTED => 0,
            tibemsAcknowledgeMode::TIBEMS_AUTO_ACKNOWLEDGE => 1,
            tibemsAcknowledgeMode::TIBEMS_CLIENT_ACKNOWLEDGE => 2,
            tibemsAcknowledgeMode::TIBEMS_DUPS_OK_ACKNOWLEDGE => 3,
            tibemsAcknowledgeMode::TIBEMS_NO_ACKNOWLEDGE => 22,
            tibemsAcknowledgeMode::TIBEMS_EXPLICIT_CLIENT_ACKNOWLEDGE => 23,
            tibemsAcknowledgeMode::TIBEMS_EXPLICIT_CLIENT_DUPS_OK_ACKNOWLEDGE => 24,
        }
    }

    /// The acknowledge mode as a number.
    pub fn code(&self) -> (r: i32)
        ensures
            r == self.code_of(),
    {
        match self {
            tibemsAcknowledgeMode::TIBEMS_SESSION_TRANSACTED => 0,
            tibemsAcknowledgeMode::TIBEMS_AUTO_ACKNOWLEDGE => 1,
            tibemsAcknowledgeMode::TIBEMS_CLIENT_ACKNOWLEDGE => 2,
            tibemsAcknowledgeMode::TIBEMS_DUPS_OK_ACKNOWLEDGE => 3,
            tibemsAcknowledgeMode::TIBEMS_NO_ACKNOWLEDGE => 22,
            tibemsAcknowledgeMode::TIBEMS_EXPLICIT_CLIENT_ACKNOWLEDGE => 23,
            tibemsAcknowledgeMode::TIBEMS_EXPLICIT_CLIENT_DUPS_OK_ACKNOWLEDGE => 24,
        }
    }

    /// The acknowledge mode that a number stands for, if it stands for any.
    pub fn from_code(code: i32) -> (r: Option<Self>)
        ensures
            match r {
                Some(s) => s.code_of() == code,
                None => forall|s: Self| s.code_of() != code,
            },
    {
        match code {
            0 => Some(tibemsAcknowledgeMode::TIBEMS_SESSION_TRANSACTED),
            1 => Some(tibemsAcknowledgeMode::TIBEMS_AUTO_ACKNOWLEDGE),
            2 => Some(tibemsAcknowledgeMode::TIBEMS_CLIENT_ACKNOWLEDGE),
            3 => Some(tibemsAcknowledgeMode::TIBEMS_DUPS_OK_ACKNOWLEDGE),
            22 => Some(tibemsAcknowledgeMode::TIBEMS_NO_ACKNOWLEDGE),
            23 => Some(tibemsAcknowledgeMode::TIBEMS_EXPLICIT_CLIENT_ACKNOWLEDGE),
            24 => Some(tibemsAcknowledgeMode::TIBEMS_EXPLICIT_CLIENT_DUPS_OK_ACKNOWLEDGE),
            _ => None,
        }
    }

    /// No two names are stood for by the same number.
    pub proof fn law_codes_differ(a: Self, b: Self)
        ensures
            a.code_of() == b.code_of() ==> a == b,
    {
    }
}

/// Status that every call into the broker library returns.
#[allow(non_camel_case_types)]
#[derive(Debug, Clone, Copy, PartialEq, Eq, Structural)]
pub enum tibems_status {
    /// The call completed normally.
    TIBEMS_OK,
    /// A function call or server request occurred in an inappropriate context.
    TIBEMS_ILLEGAL_STATE,
    /// The provider rejects the connection's client ID.
    TIBEMS_INVALID_CLIENT_ID,
    /// The server cannot locate the destination.
    TIBEMS_INVALID_DESTINATION,
    /// The client passed a message selector with invalid syntax.
    TIBEMS_INVALID_SELECTOR,
    /// Non-specific error code.
    TIBEMS_EXCEPTION,
    /// The function cannot complete because of a security restriction.
    TIBEMS_SECURITY_EXCEPTION,
    /// The data stream within a message ended unexpectedly.
    TIBEMS_MSG_EOF,
    /// Attempt to read from a message in write-only mode.
    TIBEMS_MSG_NOT_READABLE,
    /// Attempt to write to a message in read-only mode.
    TIBEMS_MSG_NOT_WRITEABLE,
    /// An attempt to connect to the server has failed.
    TIBEMS_SERVER_NOT_CONNECTED,
    /// The versions of client and server do not match.
    TIBEMS_VERSION_MISMATCH,
    /// The server cannot create a topic or durable because the name is already in use.
    TIBEMS_SUBJECT_COLLISION,
    /// Cannot create a connection or transaction because the specified protocol does not exist.
    TIBEMS_INVALID_PROTOCOL,
    /// The connection URL includes an invalid hostname, or an attempt to lookup the host
    /// address failed.
    TIBEMS_INVALID_HOSTNAME,
    /// The connection URL includes an invalid port number.
    TIBEMS_INVALID_PORT,
    /// The program exceeded available memory during the call.
    TIBEMS_NO_MEMORY,
    /// The function received an illegal value as an argument.
    TIBEMS_INVALID_ARG,
    /// The server has exceeded the maximum number of licensed connections or hosts that it can
    /// service.
    TIBEMS_SERVER_LIMIT,
    /// The message is a duplicate.
    TIBEMS_MSG_DUPLICATE,
    /// The server has disconnected.
    TIBEMS_SERVER_DISCONNECTED,
    /// The connection to the server is being restored.
    TIBEMS_SERVER_RECONNECTING,
    /// The function call is not permitted (for example, closing a connection within a
    /// callback).
    TIBEMS_NOT_PERMITTED,
    /// Exception callback handler functions receive this code to indicate that the server has
    /// reconnected.
    TIBEMS_SERVER_RECONNECTED,
    /// In a lookup request, the name has incorrect syntax.
    TIBEMS_INVALID_NAME,
    /// The type is invalid.
    TIBEMS_INVALID_TYPE,
    /// An argument is outside the range of valid values.
    TIBEMS_INVALID_SIZE,
    /// The count is invalid.
    TIBEMS_INVALID_COUNT,
    /// A name is not bound: a lookup found nothing, or a message holds no field or property of
    /// the name.
    TIBEMS_NOT_FOUND,
    /// The id is in use.
    TIBEMS_ID_IN_USE,
    /// The id conflicts with another.
    TIBEMS_ID_CONFLICT,
    /// A datatype conversion failed while parsing a message (converting UTF-8 data to native
    /// datatypes).
    TIBEMS_CONVERSION_FAILED,
    /// The message is uninitialized or corrupt.
    TIBEMS_INVALID_MSG,
    /// The message contains an invalid field.
    TIBEMS_INVALID_FIELD,
    /// The instance is invalid.
    TIBEMS_INVALID_INSTANCE,
    /// The message is corrupt.
    TIBEMS_CORRUPT_MSG,
    /// The producer has failed.
    TIBEMS_PRODUCER_FAILED,
    /// The timeout has expired while waiting for a message.
    TIBEMS_TIMEOUT,
    /// A blocking operation has been interrupted.
    TIBEMS_INTR,
    /// A server queue or topic has exceeded its size limit, and cannot add a new message.
    TIBEMS_DESTINATION_LIMIT_EXCEEDED,
    /// The server has exceeded its memory limit.
    TIBEMS_MEM_LIMIT_EXCEEDED,
    /// A blocking operation has been interrupted by the user.
    TIBEMS_USER_INTR,
    /// The queue group is invalid.
    TIBEMS_INVALID_QUEUE_GROUP,
    /// The time interval is invalid.
    TIBEMS_INVALID_TIME_INTERVAL,
    /// The function detected an invalid I/O source (such as a socket or file).
    TIBEMS_INVALID_IO_SOURCE,
    /// The I/O condition is invalid.
    TIBEMS_INVALID_IO_CONDITION,
    /// The limit of sockets is reached.
    TIBEMS_SOCKET_LIMIT,
    /// An operating system error occurred during the call.
    TIBEMS_OS_ERROR,
    /// The call would block.
    TIBEMS_WOULD_BLOCK,
    /// The result of the call overflowed the buffer supplied by the program.
    TIBEMS_INSUFFICIENT_BUFFER,
    /// The call detected an unexpected end-of-file.
    TIBEMS_EOF,
    /// The function detected an invalid file.
    TIBEMS_INVALID_FILE,
    /// The specified file does not exist.
    TIBEMS_FILE_NOT_FOUND,
    /// An operating system I/O call failed.
    TIBEMS_IO_FAILED,
    /// The caller does not own the file.
    TIBEMS_NOT_FILE_OWNER,
    /// Cannot create an item that already exists.
    TIBEMS_ALREADY_EXISTS,
    /// The connection is invalid.
    TIBEMS_INVALID_CONNECTION,
    /// The session is invalid.
    TIBEMS_INVALID_SESSION,
    /// The consumer is invalid.
    TIBEMS_INVALID_CONSUMER,
    /// The producer is invalid.
    TIBEMS_INVALID_PRODUCER,
    /// The server could not authenticate the user.
    TIBEMS_INVALID_USER,
    /// The group is invalid.
    TIBEMS_INVALID_GROUP,
    /// A transaction failed at the server during a commit call.
    TIBEMS_TRANSACTION_FAILED,
    /// Failure during prepare or commit caused automatic rollback of a transaction.
    TIBEMS_TRANSACTION_ROLLBACK,
    /// A transaction failed during two-phase commit; the program may attempt to commit it
    /// again.
    TIBEMS_TRANSACTION_RETRY,
    /// When a session uses an XA transaction manager, the XA resource is the correct locus for
    /// all commit and rollback requests.
    TIBEMS_INVALID_XARESOURCE,
    /// The producer attempted to send a message immediately after a fault tolerance failover to
    /// another server.
    TIBEMS_FT_SERVER_LACKS_TRANSACTION,
    /// The directory service reported an error.
    TIBEMS_LDAP_ERROR,
    /// The proxy user is invalid.
    TIBEMS_INVALID_PROXY_USER,
    /// SSL detected an invalid X.509 certificate.
    TIBEMS_INVALID_CERT,
    /// SSL detected an X.509 certificate that is not yet valid; that is, the current date is
    /// before the first date for which the certificate becomes valid.
    TIBEMS_INVALID_CERT_NOT_YET,
    /// SSL detected an X.509 certificate that is no longer valid; that is, the current date is
    /// after the expiration date.
    TIBEMS_INVALID_CERT_EXPIRED,
    /// SSL detected an X.509 certificate containing corrupt data.
    TIBEMS_INVALID_CERT_DATA,
    /// Error loading a cipher suite algorithm.
    TIBEMS_ALGORITHM_ERROR,
    /// Generic SSL error code.
    TIBEMS_SSL_ERROR,
    /// SSL detected a private key that does not match its public key.
    TIBEMS_INVALID_PRIVATE_KEY,
    /// SSL detected a certificate encoding that it cannot read.
    TIBEMS_INVALID_ENCODING,
    /// SSL lacks sufficient random data to complete an operation securely.
    TIBEMS_NOT_ENOUGH_RANDOM,
    /// The certificate revocation list holds corrupt data.
    TIBEMS_INVALID_CRL_DATA,
    /// The certificate revocation list is switched off.
    TIBEMS_CRL_OFF,
    /// The certificate revocation list is empty.
    TIBEMS_EMPTY_CRL,
    /// Initialization of the tibems library failed.
    TIBEMS_NOT_INITIALIZED,
    /// The initialization failed.
    TIBEMS_INIT_FAILURE,
    /// Two arguments conflict.
    TIBEMS_ARG_CONFLICT,
    /// The service was not found.
    TIBEMS_SERVICE_NOT_FOUND,
    /// The callback is invalid.
    TIBEMS_INVALID_CALLBACK,
    /// The queue is invalid.
    TIBEMS_INVALID_QUEUE,
    /// The event is invalid.
    TIBEMS_INVALID_EVENT,
    /// The subject is invalid.
    TIBEMS_INVALID_SUBJECT,
    /// The dispatcher is invalid.
    TIBEMS_INVALID_DISPATCHER,
    /// The Java runtime raised an exception.
    TIBEMS_JNI_EXCEPTION,
    /// The Java runtime reported an error.
    TIBEMS_JNI_ERR,
    /// The thread is detached from the Java runtime.
    TIBEMS_JNI_EDETACHED,
    /// The version of the Java runtime does not fit.
    TIBEMS_JNI_EVERSION,
    /// The Java runtime exists already.
    TIBEMS_JNI_EEXIST,
    /// The Java runtime was given an invalid argument.
    TIBEMS_JNI_EINVAL,
    /// There is no memory for the object.
    TIBEMS_NO_MEMORY_FOR_OBJECT,
    /// The connection without shared state has failed.
    TIBEMS_UFO_CONNECTION_FAILURE,
    /// The function is not implemented.
    TIBEMS_NOT_IMPLEMENTED,
}

impl tibems_status {
    /// The number that stands for this name.
    pub open spec fn code_of(self) -> int {
        match self {
            tibems_status::TIBEMS_OK => 0,
            tibems_status::TIBEMS_ILLEGAL_STATE => 1,
            tibems_status::TIBEMS_INVALID_CLIENT_ID => 2,
            tibems_status::TIBEMS_INVALID_DESTINATION => 3,
            tibems_status::TIBEMS_INVALID_SELECTOR => 4,
            tibems_status::TIBEMS_EXCEPTION => 5,
            tibems_status::TIBEMS_SECURITY_EXCEPTION => 6,
            tibems_status::TIBEMS_MSG_EOF => 7,
            tibems_status::TIBEMS_MSG_NOT_READABLE => 9,
            tibems_status::TIBEMS_MSG_NOT_WRITEABLE => 10,
            tibems_status::TIBEMS_SERVER_NOT_CONNECTED => 11,
            tibems_status::TIBEMS_VERSION_MISMATCH => 12,
            tibems_status::TIBEMS_SUBJECT_COLLISION => 13,
            tibems_status::TIBEMS_INVALID_PROTOCOL => 15,
            tibems_status::TIBEMS_INVALID_HOSTNAME => 17,
            tibems_status::TIBEMS_INVALID_PORT => 18,
            tibems_status::TIBEMS_NO_MEMORY => 19,
            tibems_status::TIBEMS_INVALID_ARG => 20,
            tibems_status::TIBEMS_SERVER_LIMIT => 21,
            tibems_status::TIBEMS_MSG_DUPLICATE => 22,
            tibems_status::TIBEMS_SERVER_DISCONNECTED => 23,
            tibems_status::TIBEMS_SERVER_RECONNECTING => 24,
            tibems_status::TIBEMS_NOT_PERMITTED => 27,
            tibems_status::TIBEMS_SERVER_RECONNECTED => 28,
            tibems_status::TIBEMS_INVALID_NAME => 30,
            tibems_status::TIBEMS_INVALID_TYPE => 31,
            tibems_status::TIBEMS_INVALID_SIZE => 32,
            tibems_status::TIBEMS_INVALID_COUNT => 33,
            tibems_status::TIBEMS_NOT_FOUND => 35,
            tibems_status::TIBEMS_ID_IN_USE => 36,
            tibems_status::TIBEMS_ID_CONFLICT => 37,
            tibems_status::TIBEMS_CONVERSION_FAILED => 38,
            tibems_status::TIBEMS_INVALID_MSG => 42,
            tibems_status::TIBEMS_INVALID_FIELD => 43,
            tibems_status::TIBEMS_INVALID_INSTANCE => 44,
            tibems_status::TIBEMS_CORRUPT_MSG => 45,
            tibems_status::TIBEMS_PRODUCER_FAILED => 47,
            tibems_status::TIBEMS_TIMEOUT => 50,
            tibems_status::TIBEMS_INTR => 51,
            tibems_status::TIBEMS_DESTINATION_LIMIT_EXCEEDED => 52,
            tibems_status::TIBEMS_MEM_LIMIT_EXCEEDED => 53,
            tibems_status::TIBEMS_USER_INTR => 54,
            tibems_status::TIBEMS_INVALID_QUEUE_GROUP => 63,
            tibems_status::TIBEMS_INVALID_TIME_INTERVAL => 64,
            tibems_status::TIBEMS_INVALID_IO_SOURCE => 65,
            tibems_status::TIBEMS_INVALID_IO_CONDITION => 66,
            tibems_status::TIBEMS_SOCKET_LIMIT => 67,
            tibems_status::TIBEMS_OS_ERROR => 68,
            tibems_status::TIBEMS_WOULD_BLOCK => 69,
            tibems_status::TIBEMS_INSUFFICIENT_BUFFER => 70,
            tibems_status::TIBEMS_EOF => 71,
            tibems_status::TIBEMS_INVALID_FILE => 72,
            tibems_status::TIBEMS_FILE_NOT_FOUND => 73,
            tibems_status::TIBEMS_IO_FAILED => 74,
            tibems_status::TIBEMS_NOT_FILE_OWNER => 80,
            tibems_status::TIBEMS_ALREADY_EXISTS => 91,
            tibems_status::TIBEMS_INVALID_CONNECTION => 100,
            tibems_status::TIBEMS_INVALID_SESSION => 101,
            tibems_status::TIBEMS_INVALID_CONSUMER => 102,
            tibems_status::TIBEMS_INVALID_PRODUCER => 103,
            tibems_status::TIBEMS_INVALID_USER => 104,
            tibems_status::TIBEMS_INVALID_GROUP => 105,
            tibems_status::TIBEMS_TRANSACTION_FAILED => 106,
            tibems_status::TIBEMS_TRANSACTION_ROLLBACK => 107,
            tibems_status::TIBEMS_TRANSACTION_RETRY => 108,
            tibems_status::TIBEMS_INVALID_XARESOURCE => 109,
            tibems_status::TIBEMS_FT_SERVER_LACKS_TRANSACTION => 110,
            tibems_status::TIBEMS_LDAP_ERROR => 120,
            tibems_status::TIBEMS_INVALID_PROXY_USER => 121,
            tibems_status::TIBEMS_INVALID_CERT => 150,
            tibems_status::TIBEMS_INVALID_CERT_NOT_YET => 151,
            tibems_status::TIBEMS_INVALID_CERT_EXPIRED => 152,
            tibems_status::TIBEMS_INVALID_CERT_DATA => 153,
            tibems_status::TIBEMS_ALGORITHM_ERROR => 154,
            tibems_status::TIBEMS_SSL_ERROR => 155,
            tibems_status::TIBEMS_INVALID_PRIVATE_KEY => 156,
            tibems_status::TIBEMS_INVALID_ENCODING => 157,
            tibems_status::TIBEMS_NOT_ENOUGH_RANDOM => 158,
            tibems_status::TIBEMS_INVALID_CRL_DATA => 159,
            tibems_status::TIBEMS_CRL_OFF => 160,
            tibems_status::TIBEMS_EMPTY_CRL => 161,
            tibems_status::TIBEMS_NOT_INITIALIZED => 200,
            tibems_status::TIBEMS_INIT_FAILURE => 201,
            tibems_status::TIBEMS_ARG_CONFLICT => 202,
            tibems_status::TIBEMS_SERVICE_NOT_FOUND => 210,
            tibems_status::TIBEMS_INVALID_CALLBACK => 211,
            tibems_status::TIBEMS_INVALID_QUEUE => 212,
            tibems_status::TIBEMS_INVALID_EVENT => 213,
            tibems_status::TIBEMS_INVALID_SUBJECT => 214,
            tibems_status::TIBEMS_INVALID_DISPATCHER => 215,
            tibems_status::TIBEMS_JNI_EXCEPTION => 230,
            tibems_status::TIBEMS_JNI_ERR => 231,
            tibems_status::TIBEMS_JNI_EDETACHED => 232,
            tibems_status::TIBEMS_JNI_EVERSION => 233,
            tibems_status::TIBEMS_JNI_EEXIST => 235,
            tibems_status::TIBEMS_JNI_EINVAL => 236,
            tibems_status::TIBEMS_NO_MEMORY_FOR_OBJECT => 237,
            tibems_status::TIBEMS_UFO_CONNECTION_FAILURE => 240,
            tibems_status::TIBEMS_NOT_IMPLEMENTED => 255,
        }
    }

    /// The status as a number.
    pub fn code(&self) -> (r: i32)
        ensures
            r == self.code_of(),
    {
        match self {
            tibems_status::TIBEMS_OK => 0,
            tibems_status::TIBEMS_ILLEGAL_STATE => 1,
            tibems_status::TIBEMS_INVALID_CLIENT_ID => 2,
            tibems_status::TIBEMS_INVALID_DESTINATION => 3,
            tibems_status::TIBEMS_INVALID_SELECTOR => 4,
            tibems_status::TIBEMS_EXCEPTION => 5,
            tibems_status::TIBEMS_SECURITY_EXCEPTION => 6,
            tibems_status::TIBEMS_MSG_EOF => 7,
            tibems_status::TIBEMS_MSG_NOT_READABLE => 9,
            tibems_status::TIBEMS_MSG_NOT_WRITEABLE => 10,
            tibems_status::TIBEMS_SERVER_NOT_CONNECTED => 11,
            tibems_status::TIBEMS_VERSION_MISMATCH => 12,
            tibems_status::TIBEMS_SUBJECT_COLLISION => 13,
            tibems_status::TIBEMS_INVALID_PROTOCOL => 15,
            tibems_status::TIBEMS_INVALID_HOSTNAME => 17,
            tibems_status::TIBEMS_INVALID_PORT => 18,
            tibems_status::TIBEMS_NO_MEMORY => 19,
            tibems_status::TIBEMS_INVALID_ARG => 20,
            tibems_status::TIBEMS_SERVER_LIMIT => 21,
            tibems_status::TIBEMS_MSG_DUPLICATE => 22,
            tibems_status::TIBEMS_SERVER_DISCONNECTED => 23,
            tibems_status::TIBEMS_SERVER_RECONNECTING => 24,
            tibems_status::TIBEMS_NOT_PERMITTED => 27,
            tibems_status::TIBEMS_SERVER_RECONNECTED => 28,
            tibems_status::TIBEMS_INVALID_NAME => 30,
            tibems_status::TIBEMS_INVALID_TYPE => 31,
            tibems_status::TIBEMS_INVALID_SIZE => 32,
            tibems_status::TIBEMS_INVALID_COUNT => 33,
            tibems_status::TIBEMS_NOT_FOUND => 35,
            tibems_status::TIBEMS_ID_IN_USE => 36,
            tibems_status::TIBEMS_ID_CONFLICT => 37,
            tibems_status::TIBEMS_CONVERSION_FAILED => 38,
            tibems_status::TIBEMS_INVALID_MSG => 42,
            tibems_status::TIBEMS_INVALID_FIELD => 43,
            tibems_status::TIBEMS_INVALID_INSTANCE => 44,
            tibems_status::TIBEMS_CORRUPT_MSG => 45,
            tibems_status::TIBEMS_PRODUCER_FAILED => 47,
            tibems_status::TIBEMS_TIMEOUT => 50,
            tibems_status::TIBEMS_INTR => 51,
            tibems_status::TIBEMS_DESTINATION_LIMIT_EXCEEDED => 52,
            tibems_status::TIBEMS_MEM_LIMIT_EXCEEDED => 53,
            tibems_status::TIBEMS_USER_INTR => 54,
            tibems_status::TIBEMS_INVALID_QUEUE_GROUP => 63,
            tibems_status::TIBEMS_INVALID_TIME_INTERVAL => 64,
            tibems_status::TIBEMS_INVALID_IO_SOURCE => 65,
            tibems_status::TIBEMS_INVALID_IO_CONDITION => 66,
            tibems_status::TIBEMS_SOCKET_LIMIT => 67,
            tibems_status::TIBEMS_OS_ERROR => 68,
            tibems_status::TIBEMS_WOULD_BLOCK => 69,
            tibems_status::TIBEMS_INSUFFICIENT_BUFFER => 70,
            tibems_status::TIBEMS_EOF => 71,
            tibems_status::TIBEMS_INVALID_FILE => 72,
            tibems_status::TIBEMS_FILE_NOT_FOUND => 73,
            tibems_status::TIBEMS_IO_FAILED => 74,
            tibems_status::TIBEMS_NOT_FILE_OWNER => 80,
            tibems_status::TIBEMS_ALREADY_EXISTS => 91,
            tibems_status::TIBEMS_INVALID_CONNECTION => 100,
            tibems_status::TIBEMS_INVALID_SESSION => 101,
            tibems_status::TIBEMS_INVALID_CONSUMER => 102,
            tibems_status::TIBEMS_INVALID_PRODUCER => 103,
            tibems_status::TIBEMS_INVALID_USER => 104,
            tibems_status::TIBEMS_INVALID_GROUP => 105,
            tibems_status::TIBEMS_TRANSACTION_FAILED => 106,
            tibems_status::TIBEMS_TRANSACTION_ROLLBACK => 107,
            tibems_status::TIBEMS_TRANSACTION_RETRY => 108,
            tibems_status::TIBEMS_INVALID_XARESOURCE => 109,
            tibems_status::TIBEMS_FT_SERVER_LACKS_TRANSACTION => 110,
            tibems_status::TIBEMS_LDAP_ERROR => 120,
            tibems_status::TIBEMS_INVALID_PROXY_USER => 121,
            tibems_status::TIBEMS_INVALID_CERT => 150,
            tibems_status::TIBEMS_INVALID_CERT_NOT_YET => 151,
            tibems_status::TIBEMS_INVALID_CERT_EXPIRED => 152,
            tibems_status::TIBEMS_INVALID_CERT_DATA => 153,
            tibems_status::TIBEMS_ALGORITHM_ERROR => 154,
            tibems_status::TIBEMS_SSL_ERROR => 155,
            tibems_status::TIBEMS_INVALID_PRIVATE_KEY => 156,
            tibems_status::TIBEMS_INVALID_ENCODING => 157,
            tibems_status::TIBEMS_NOT_ENOUGH_RANDOM => 158,
            tibems_status::TIBEMS_INVALID_CRL_DATA => 159,
            tibems_status::TIBEMS_CRL_OFF => 160,
            tibems_status::TIBEMS_EMPTY_CRL => 161,
            tibems_status::TIBEMS_NOT_INITIALIZED => 200,
            tibems_status::TIBEMS_INIT_FAILURE => 201,
            tibems_status::TIBEMS_ARG_CONFLICT => 202,
            tibems_status::TIBEMS_SERVICE_NOT_FOUND => 210,
            tibems_status::TIBEMS_INVALID_CALLBACK => 211,
            tibems_status::TIBEMS_INVALID_QUEUE => 212,
            tibems_status::TIBEMS_INVALID_EVENT => 213,
            tibems_status::TIBEMS_INVALID_SUBJECT => 214,
            tibems_status::TIBEMS_INVALID_DISPATCHER => 215,
            tibems_status::TIBEMS_JNI_EXCEPTION => 230,
            tibems_status::TIBEMS_JNI_ERR => 231,
            tibems_status::TIBEMS_JNI_EDETACHED => 232,
            tibems_status::TIBEMS_JNI_EVERSION => 233,
            tibems_status::TIBEMS_JNI_EEXIST => 235,
            tibems_status::TIBEMS_JNI_EINVAL => 236,
            tibems_status::TIBEMS_NO_MEMORY_FOR_OBJECT => 237,
            tibems_status::TIBEMS_UFO_CONNECTION_FAILURE => 240,
            tibems_status::TIBEMS_NOT_IMPLEMENTED => 255,
        }
    }

    /// The status that a number stands for, if it stands for any.
    pub fn from_code(code: i32) -> (r: Option<Self>)
        ensures
            match r {
                Some(s) => s.code_of() == code,
                None => forall|s: Self| s.code_of() != code,
            },
    {
        match code {
            0 => Some(tibems_status::TIBEMS_OK),
            1 => Some(tibems_status::TIBEMS_ILLEGAL_STATE),
            2 => Some(tibems_status::TIBEMS_INVALID_CLIENT_ID),
            3 => Some(tibems_status::TIBEMS_INVALID_DESTINATION),
            4 => Some(tibems_status::TIBEMS_INVALID_SELECTOR),
            5 => Some(tibems_status::TIBEMS_EXCEPTION),
            6 => Some(tibems_status::TIBEMS_SECURITY_EXCEPTION),
            7 => Some(tibems_status::TIBEMS_MSG_EOF),
            9 => Some(tibems_status::TIBEMS_MSG_NOT_READABLE),
            10 => Some(tibems_status::TIBEMS_MSG_NOT_WRITEABLE),
            11 => Some(tibems_status::TIBEMS_SERVER_NOT_CONNECTED),
            12 => Some(tibems_status::TIBEMS_VERSION_MISMATCH),
            13 => Some(tibems_status::TIBEMS_SUBJECT_COLLISION),
            15 => Some(tibems_status::TIBEMS_INVALID_PROTOCOL),
            17 => Some(tibems_status::TIBEMS_INVALID_HOSTNAME),
            18 => Some(tibems_status::TIBEMS_INVALID_PORT),
            19 => Some(tibems_status::TIBEMS_NO_MEMORY),
            20 => Some(tibems_status::TIBEMS_INVALID_ARG),
            21 => Some(tibems_status::TIBEMS_SERVER_LIMIT),
            22 => Some(tibems_status::TIBEMS_MSG_DUPLICATE),
            23 => Some(tibems_status::TIBEMS_SERVER_DISCONNECTED),
            24 => Some(tibems_status::TIBEMS_SERVER_RECONNECTING),
            27 => Some(tibems_status::TIBEMS_NOT_PERMITTED),
            28 => Some(tibems_status::TIBEMS_SERVER_RECONNECTED),
            30 => Some(tibems_status::TIBEMS_INVALID_NAME),
            31 => Some(tibems_status::TIBEMS_INVALID_TYPE),
            32 => Some(tibems_status::TIBEMS_INVALID_SIZE),
            33 => Some(tibems_status::TIBEMS_INVALID_COUNT),
            35 => Some(tibems_status::TIBEMS_NOT_FOUND),
            36 => Some(tibems_status::TIBEMS_ID_IN_USE),
            37 => Some(tibems_status::TIBEMS_ID_CONFLICT),
            38 => Some(tibems_status::TIBEMS_CONVERSION_FAILED),
            42 => Some(tibems_status::TIBEMS_INVALID_MSG),
            43 => Some(tibems_status::TIBEMS_INVALID_FIELD),
            44 => Some(tibems_status::TIBEMS_INVALID_INSTANCE),
            45 => Some(tibems_status::TIBEMS_CORRUPT_MSG),
            47 => Some(tibems_status::TIBEMS_PRODUCER_FAILED),
            50 => Some(tibems_status::TIBEMS_TIMEOUT),
            51 => Some(tibems_status::TIBEMS_INTR),
            52 => Some(tibems_status::TIBEMS_DESTINATION_LIMIT_EXCEEDED),
            53 => Some(tibems_status::TIBEMS_MEM_LIMIT_EXCEEDED),
            54 => Some(tibems_status::TIBEMS_USER_INTR),
            63 => Some(tibems_status::TIBEMS_INVALID_QUEUE_GROUP),
            64 => Some(tibems_status::TIBEMS_INVALID_TIME_INTERVAL),
            65 => Some(tibems_status::TIBEMS_INVALID_IO_SOURCE),
            66 => Some(tibems_status::TIBEMS_INVALID_IO_CONDITION),
            67 => Some(tibems_status::TIBEMS_SOCKET_LIMIT),
            68 => Some(tibems_status::TIBEMS_OS_ERROR),
            69 => Some(tibems_status::TIBEMS_WOULD_BLOCK),
            70 => Some(tibems_status::TIBEMS_INSUFFICIENT_BUFFER),
            71 => Some(tibems_status::TIBEMS_EOF),
            72 => Some(tibems_status::TIBEMS_INVALID_FILE),
            73 => Some(tibems_status::TIBEMS_FILE_NOT_FOUND),
            74 => Some(tibems_status::TIBEMS_IO_FAILED),
            80 => Some(tibems_status::TIBEMS_NOT_FILE_OWNER),
            91 => Some(tibems_status::TIBEMS_ALREADY_EXISTS),
            100 => Some(tibems_status::TIBEMS_INVALID_CONNECTION),
            101 => Some(tibems_status::TIBEMS_INVALID_SESSION),
            102 => Some(tibems_status::TIBEMS_INVALID_CONSUMER),
            103 => Some(tibems_status::TIBEMS_INVALID_PRODUCER),
            104 => Some(tibems_status::TIBEMS_INVALID_USER),
            105 => Some(tibems_status::TIBEMS_INVALID_GROUP),
            106 => Some(tibems_status::TIBEMS_TRANSACTION_FAILED),
            107 => Some(tibems_status::TIBEMS_TRANSACTION_ROLLBACK),
            108 => Some(tibems_status::TIBEMS_TRANSACTION_RETRY),
            109 => Some(tibems_status::TIBEMS_INVALID_XARESOURCE),
            110 => Some(tibems_status::TIBEMS_FT_SERVER_LACKS_TRANSACTION),
            120 => Some(tibems_status::TIBEMS_LDAP_ERROR),
            121 => Some(tibems_status::TIBEMS_INVALID_PROXY_USER),
            150 => Some(tibems_status::TIBEMS_INVALID_CERT),
            151 => Some(tibems_status::TIBEMS_INVALID_CERT_NOT_YET),
            152 => Some(tibems_status::TIBEMS_INVALID_CERT_EXPIRED),
            153 => Some(tibems_status::TIBEMS_INVALID_CERT_DATA),
            154 => Some(tibems_status::TIBEMS_ALGORITHM_ERROR),
            155 => Some(tibems_status::TIBEMS_SSL_ERROR),
            156 => Some(tibems_status::TIBEMS_INVALID_PRIVATE_KEY),
            157 => Some(tibems_status::TIBEMS_INVALID_ENCODING),
            158 => Some(tibems_status::TIBEMS_NOT_ENOUGH_RANDOM),
            159 => Some(tibems_status::TIBEMS_INVALID_CRL_DATA),
            160 => Some(tibems_status::TIBEMS_CRL_OFF),
            161 => Some(tibems_status::TIBEMS_EMPTY_CRL),
            200 => Some(tibems_status::TIBEMS_NOT_INITIALIZED),
            201 => Some(tibems_status::TIBEMS_INIT_FAILURE),
            202 => Some(tibems_status::TIBEMS_ARG_CONFLICT),
            210 => Some(tibems_status::TIBEMS_SERVICE_NOT_FOUND),
            211 => Some(tibems_status::TIBEMS_INVALID_CALLBACK),
            212 => Some(tibems_status::TIBEMS_INVALID_QUEUE),
            213 => Some(tibems_status::TIBEMS_INVALID_EVENT),
            214 => Some(tibems_status::TIBEMS_INVALID_SUBJECT),
            215 => Some(tibems_status::TIBEMS_INVALID_DISPATCHER),
            230 => Some(tibems_status::TIBEMS_JNI_EXCEPTION),
            231 => Some(tibems_status::TIBEMS_JNI_ERR),
            232 => Some(tibems_status::TIBEMS_JNI_EDETACHED),
            233 => Some(tibems_status::TIBEMS_JNI_EVERSION),
            235 => Some(tibems_status::TIBEMS_JNI_EEXIST),
            236 => Some(tibems_status::TIBEMS_JNI_EINVAL),
            237 => Some(tibems_status::TIBEMS_NO_MEMORY_FOR_OBJECT),
            240 => Some(tibems_status::TIBEMS_UFO_CONNECTION_FAILURE),
            255 => Some(tibems_status::TIBEMS_NOT_IMPLEMENTED),
            _ => None,
        }
    }

    /// No two names are stood for by the same number.
    pub proof fn law_codes_differ(a: Self, b: Self)
        ensures
            a.code_of() == b.code_of() ==> a == b,
    {
    }
}

} // verus!
