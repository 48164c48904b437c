use vstd::prelude::*;
use vstd::utf8::encode_utf8;

use crate::error::Error;

verus! {

/// The bytes of a C string holding `text`: its UTF-8 encoding and one NUL.
pub open spec fn c_bytes(text: Seq<char>) -> Seq<u8> {
    encode_utf8(text).push(0u8)
}

/// `text` cannot be handed over as a C string: its encoding holds a NUL byte.
pub open spec fn has_nul(text: Seq<char>) -> bool {
    encode_utf8(text).contains(0u8)
}

/// A string ready to be handed to the library as a C string: its bytes,
/// none of them NUL, followed by one NUL byte.
#[derive(Debug)]
pub struct CText {
    bytes: Vec<u8>,
}

impl View for CText {
    type V = Seq<u8>;

    closed spec fn view(&self) -> Seq<u8> {
        self.bytes@
    }
}

impl CText {
    #[verifier::type_invariant]
    spec fn inv(self) -> bool {
        &&& self.bytes@.len() >= 1
        &&& self.bytes@.last() == 0u8
        &&& forall|i: int| 0 <= i < self.bytes@.len() - 1 ==> self.bytes@[i] != 0u8
    }

    /// The bytes, the closing NUL included.
    pub fn as_bytes_with_nul(&self) -> (b: &[u8])
        ensures
            b@ == self@,
            b@.len() >= 1,
            b@.last() == 0u8,
            forall|i: int| 0 <= i < b@.len() - 1 ==> b@[i] != 0u8,
    {
        proof {
            use_type_invariant(self);
        }
        self.bytes.as_slice()
    }

    /// The bytes, the closing NUL included.
    pub fn into_bytes_with_nul(self) -> (b: Vec<u8>)
        ensures
            b@ == self@,
    {
        self.bytes
    }
}

/// `text` as a C string, or `on_nul` where it holds a NUL byte.
pub fn c_string(text: &str, on_nul: Error) -> (r: Result<CText, Error>)
    ensures
        has_nul(text@) ==> r == Err::<CText, Error>(on_nul),
        !has_nul(text@) ==> (r matches Ok(t) && t@ == c_bytes(text@)),
        encode_utf8(text@).contains(0u8) <==> r is Err,
        r matches Ok(t) ==> t@ == encode_utf8(text@).push(0u8),
{
    let src = text.as_bytes();
    let mut bytes: Vec<u8> = Vec::new();
    let mut i: usize = 0;
    while i < src.len()
        invariant
            i <= src@.len(),
            src@ == encode_utf8(text@),
            bytes@ == src@.take(i as int),
            forall|j: int| 0 <= j < i ==> src@[j] != 0u8,
        decreases src@.len() - i,
    {
        if src[i] == 0 {
            assert(src@.contains(0u8)) by {
                assert(src@[i as int] == 0u8);
            }
            return Err(on_nul);
        }
        bytes.push(src[i]);
        i = i + 1;
        assert(bytes@ =~= src@.take(i as int));
    }
    assert(src@.take(i as int) =~= src@);
    bytes.push(0u8);
    let t = CText { bytes };
    assert(t@ =~= c_bytes(text@));
    Ok(t)
}

/// An optional string as an optional C string; a NUL byte in it is an
/// `InteriorNul` error.
pub fn make_cstring(s: Option<&str>) -> (r: Result<Option<CText>, Error>)
    ensures
        r is Err <==> (s matches Some(t) && has_nul(t@)),
        r matches Err(e) ==> e is InteriorNul,
        r is Err <==> (s is Some && encode_utf8(s->0@).contains(0u8)),
        r matches Ok(arg) ==> (arg is Some <==> s is Some),
        r matches Ok(arg) ==> (arg is Some ==> arg->0@ == encode_utf8(s->0@).push(0u8)),
        r matches Ok(arg) ==> c_arg_of(
            match s {
                Some(t) => Some(t@),
                None => None,
            },
            arg,
        ),
{
    match s {
        Some(t) => match c_string(t, Error::InteriorNul) {
            Ok(c) => Ok(Some(c)),
            Err(e) => Err(e),
        },
        None => Ok(None),
    }
}

/// `arg` is the C argument for the optional text `text`.
pub open spec fn c_arg_of(text: Option<Seq<char>>, arg: Option<CText>) -> bool {
    match (text, arg) {
        (None, None) => true,
        (Some(t), Some(c)) => c@ == c_bytes(t),
        _ => false,
    }
}

/// The optional text `s` as seen by the contracts.
pub open spec fn opt_text(s: Option<String>) -> Option<Seq<char>> {
    match s {
        Some(t) => Some(t@),
        None => None,
    }
}

/// The optional text `s` holds a NUL byte.
pub open spec fn opt_has_nul(s: Option<String>) -> bool {
    s matches Some(t) && has_nul(t@)
}

/// The C `int` that stands for a flag.
pub open spec fn flag_arg(b: bool) -> i32 {
    if b {
        1
    } else {
        0
    }
}

/// Options for creating a NetBird embedded client.
#[derive(Debug)]
pub struct ClientOptions {
    /// Setup key for headless registration.
    pub setup_key: Option<String>,
    /// NetBird management server URL.
    pub management_url: Option<String>,
    /// Human-readable device name.
    pub device_name: Option<String>,
    /// JWT token for OIDC-based registration.
    pub token: Option<String>,
    /// WireGuard private key (base64). Generated automatically if not set.
    pub private_key: Option<String>,
    /// WireGuard pre-shared key (base64).
    pub pre_shared_key: Option<String>,
    /// Log level: "panic", "fatal", "error", "warn", "info", "debug", "trace".
    pub log_level: Option<String>,
    /// Path to the NetBird config file.
    pub config_path: Option<String>,
    /// Path to the NetBird state file.
    pub state_path: Option<String>,
    /// WireGuard listen port. Use `Some(0)` for a random port (avoids conflicts
    /// with other WireGuard instances). `None` uses the NetBird default (51820).
    pub wireguard_port: Option<i32>,
    /// Disable client routes advertised by peers.
    pub disable_client_routes: bool,
    /// Block inbound connections from peers.
    pub block_inbound: bool,
    /// Disable userspace WireGuard (use kernel module instead).
    pub no_userspace: bool,
}

impl Default for ClientOptions {
    /// No option set: every text and the port absent, every flag off.
    fn default() -> (o: ClientOptions)
        ensures
            o.setup_key is None,
            o.management_url is None,
            o.device_name is None,
            o.token is None,
            o.private_key is None,
            o.pre_shared_key is None,
            o.log_level is None,
            o.config_path is None,
            o.state_path is None,
            o.wireguard_port is None,
            !o.disable_client_routes,
            !o.block_inbound,
            !o.no_userspace,
    {
        ClientOptions {
            setup_key: None,
            management_url: None,
            device_name: None,
            token: None,
            private_key: None,
            pre_shared_key: None,
            log_level: None,
            config_path: None,
            state_path: None,
            wireguard_port: None,
            disable_client_routes: false,
            block_inbound: false,
            no_userspace: false,
        }
    }
}

/// The arguments with which the library creates a client.
#[derive(Debug)]
pub struct CreateArgs {
    pub setup_key: Option<CText>,
    pub management_url: Option<CText>,
    pub device_name: Option<CText>,
    pub token: Option<CText>,
    pub private_key: Option<CText>,
    pub pre_shared_key: Option<CText>,
    pub log_level: Option<CText>,
    pub config_path: Option<CText>,
    pub state_path: Option<CText>,
    /// The WireGuard port; -1 asks for the library's default.
    pub wireguard_port: i32,
    /// 1 where the flag is set, else 0.
    pub disable_client_routes: i32,
    /// 1 where the flag is set, else 0.
    pub block_inbound: i32,
    /// 1 where the flag is set, else 0.
    pub no_userspace: i32,
}

/// Some text option of `o` holds a NUL byte.
pub open spec fn options_have_nul(o: ClientOptions) -> bool {
    ||| opt_has_nul(o.setup_key)
    ||| opt_has_nul(o.management_url)
    ||| opt_has_nul(o.device_name)
    ||| opt_has_nul(o.token)
    ||| opt_has_nul(o.private_key)
    ||| opt_has_nul(o.pre_shared_key)
    ||| opt_has_nul(o.log_level)
    ||| opt_has_nul(o.config_path)
    ||| opt_has_nul(o.state_path)
}

/// `a` holds the creation arguments for the options `o`.
pub open spec fn args_for(o: ClientOptions, a: CreateArgs) -> bool {
    &&& c_arg_of(opt_text(o.setup_key), a.setup_key)
    &&& c_arg_of(opt_text(o.management_url), a.management_url)
    &&& c_arg_of(opt_text(o.device_name), a.device_name)
    &&& c_arg_of(opt_text(o.token), a.token)
    &&& c_arg_of(opt_text(o.private_key), a.private_key)
    &&& c_arg_of(opt_text(o.pre_shared_key), a.pre_shared_key)
    &&& c_arg_of(opt_text(o.log_level), a.log_level)
    &&& c_arg_of(opt_text(o.config_path), a.config_path)
    &&& c_arg_of(opt_text(o.state_path), a.state_path)
    &&& a.wireguard_port == (match o.wireguard_port {
        Some(p) => p,
        None => -1i32,
    })
    &&& a.disable_client_routes == flag_arg(o.disable_client_routes)
    &&& a.block_inbound == flag_arg(o.block_inbound)
    &&& a.no_userspace == flag_arg(o.no_userspace)
}

/// An optional text option as an optional C string.
fn option_arg(s: &Option<String>) -> (r: Result<Option<CText>, Error>)
    ensures
        r is Err <==> opt_has_nul(*s),
        r matches Err(e) ==> e is InteriorNul,
        r matches Ok(arg) ==> c_arg_of(opt_text(*s), arg),
{
    match s {
        Some(t) => make_cstring(Some(t.as_str())),
        None => make_cstring(None),
    }
}

/// The C `int` that stands for the flag `b`.
fn flag(b: bool) -> (n: i32)
    ensures
        n == flag_arg(b),
{
    if b {
        1
    } else {
        0
    }
}

impl ClientOptions {
    /// The arguments with which the library is asked to create a client with
    /// these options: each text as a C string, the port or -1, each flag as
    /// 1 or 0. A text holding a NUL byte cannot be handed over: that is an
    /// `InteriorNul` error.
    pub fn create_args(&self) -> (r: Result<CreateArgs, Error>)
        ensures
            r is Err <==> options_have_nul(*self),
            r matches Err(e) ==> e is InteriorNul,
            r matches Ok(a) ==> args_for(*self, a),
            r matches Ok(a) ==> (a.setup_key is Some <==> self.setup_key is Some),
            r matches Ok(a) ==> (a.setup_key is Some ==> a.setup_key->0@ == encode_utf8(
                self.setup_key->0@,
            ).push(0u8)),
            r matches Ok(a) ==> (a.management_url is Some <==> self.management_url is Some),
            r matches Ok(a) ==> (a.management_url is Some ==> a.management_url->0@ == encode_utf8(
                self.management_url->0@,
            ).push(0u8)),
            r matches Ok(a) ==> (a.device_name is Some <==> self.device_name is Some),
            r matches Ok(a) ==> (a.device_name is Some ==> a.device_name->0@ == encode_utf8(
                self.device_name->0@,
            ).push(0u8)),
            r matches Ok(a) ==> (a.token is Some <==> self.token is Some),
            r matches Ok(a) ==> (a.token is Some ==> a.token->0@ == encode_utf8(
                self.token->0@,
            ).push(0u8)),
            r matches Ok(a) ==> (a.private_key is Some <==> self.private_key is Some),
            r matches Ok(a) ==> (a.private_key is Some ==> a.private_key->0@ == encode_utf8(
                self.private_key->0@,
            ).push(0u8)),
            r matches Ok(a) ==> (a.pre_shared_key is Some <==> self.pre_shared_key is Some),
            r matches Ok(a) ==> (a.pre_shared_key is Some ==> a.pre_shared_key->0@ == encode_utf8(
                self.pre_shared_key->0@,
            ).push(0u8)),
            r matches Ok(a) ==> (a.log_level is Some <==> self.log_level is Some),
            r matches Ok(a) ==> (a.log_level is Some ==> a.log_level->0@ == encode_utf8(
                self.log_level->0@,
            ).push(0u8)),
            r matches Ok(a) ==> (a.config_path is Some <==> self.config_path is Some),
            r matches Ok(a) ==> (a.config_path is Some ==> a.config_path->0@ == encode_utf8(
                self.config_path->0@,
            ).push(0u8)),
            r matches Ok(a) ==> (a.state_path is Some <==> self.state_path is Some),
            r matches Ok(a) ==> (a.state_path is Some ==> a.state_path->0@ == encode_utf8(
                self.state_path->0@,
            ).push(0u8)),
            r matches Ok(a) ==> a.wireguard_port == (if self.wireguard_port is Some {
                self.wireguard_port->0
            } else {
                -1i32
            }),
            r matches Ok(a) ==> a.disable_client_routes == (if self.disable_client_routes {
                1i32
            } else {
                0i32
            }),
            r matches Ok(a) ==> a.block_inbound == (if self.block_inbound {
                1i32
            } else {
                0i32
            }),
            r matches Ok(a) ==> a.no_userspace == (if self.no_userspace {
                1i32
            } else {
                0i32
            }),
            self.setup_key matches Some(t) && encode_utf8(t@).contains(0u8) ==> r is Err,
            self.management_url matches Some(t) && encode_utf8(t@).contains(0u8) ==> r is Err,
            self.device_name matches Some(t) && encode_utf8(t@).contains(0u8) ==> r is Err,
            self.token matches Some(t) && encode_utf8(t@).contains(0u8) ==> r is Err,
            self.private_key matches Some(t) && encode_utf8(t@).contains(0u8) ==> r is Err,
            self.pre_shared_key matches Some(t) && encode_utf8(t@).contains(0u8) ==> r is Err,
            self.log_level matches Some(t) && encode_utf8(t@).contains(0u8) ==> r is Err,
            self.config_path matches Some(t) && encode_utf8(t@).contains(0u8) ==> r is Err,
            self.state_path matches Some(t) && encode_utf8(t@).contains(0u8) ==> r is Err,
    {
        let setup_key = match option_arg(&self.setup_key) {
            Ok(a) => a,
            Err(e) => return Err(e),
        };
        let management_url = match option_arg(&self.management_url) {
            Ok(a) => a,
            Err(e) => return Err(e),
        };
        let device_name = match option_arg(&self.device_name) {
            Ok(a) => a,
            Err(e) => return Err(e),
        };
        let token = match option_arg(&self.token) {
            Ok(a) => a,
            Err(e) => return Err(e),
        };
        let private_key = match option_arg(&self.private_key) {
            Ok(a) => a,
            Err(e) => return Err(e),
        };
        let pre_shared_key = match option_arg(&self.pre_shared_key) {
            Ok(a) => a,
            Err(e) => return Err(e),
        };
        let log_level = match option_arg(&self.log_level) {
            Ok(a) => a,
            Err(e) => return Err(e),
        };
        let config_path = match option_arg(&self.config_path) {
            Ok(a) => a,
            Err(e) => return Err(e),
        };
        let state_path = match option_arg(&self.state_path) {
            Ok(a) => a,
            Err(e) => return Err(e),
        };
        let wireguard_port = match self.wireguard_port {
            Some(p) => p,
            None => -1,
        };
        Ok(
            CreateArgs {
                setup_key,
                management_url,
                device_name,
                token,
                private_key,
                pre_shared_key,
                log_level,
                config_path,
                state_path,
                wireguard_port,
                disable_client_routes: flag(self.disable_client_routes),
                block_inbound: flag(self.block_inbound),
                no_userspace: flag(self.no_userspace),
            },
        )
    }
}

} // verus!
