use vstd::prelude::*;
use vstd::utf8::{
    char_is_scalar, char_u32_cast, decode_utf8, encode_scalar, encode_utf8, encode_utf8_decode_utf8,
    encode_utf8_valid_utf8, has_width_1_encoding, is_scalar, last_continuation_byte,
    leading_byte_width_1, leading_byte_width_2, leading_byte_width_3, leading_byte_width_4,
    second_last_continuation_byte, third_last_continuation_byte, valid_utf8,
};

use crate::buffer::{c_text, lemma_c_text, text_len_is};
use crate::calls::{as_fd, le_u32};
use crate::options::{args_for, c_bytes, has_nul, ClientOptions, CreateArgs};
use crate::status::{state_from_name, ConnectionState};

verus! {

/// A text handed to the library as a C string reads back unchanged: in a
/// buffer that starts with the C string of `text`, whatever follows it, the
/// bytes before the first NUL are `text`'s encoding, which is valid UTF-8
/// and decodes to `text`.
pub proof fn lemma_c_string_read_back(text: Seq<char>, rest: Seq<u8>)
    requires
        !has_nul(text),
    ensures
        c_text(c_bytes(text) + rest) == encode_utf8(text),
        valid_utf8(c_text(c_bytes(text) + rest)),
        decode_utf8(c_text(c_bytes(text) + rest)) == text,
{
    let enc = encode_utf8(text);
    let buf = c_bytes(text) + rest;
    assert forall|i: int| 0 <= i < enc.len() implies buf[i] != 0u8 by {
        assert(buf[i] == enc[i]);
        if enc[i] == 0u8 {
            assert(enc.contains(0u8));
        }
    }
    assert(buf[enc.len() as int] == 0u8);
    assert(text_len_is(buf, enc.len() as int));
    lemma_c_text(buf, enc.len() as int);
    assert(buf.take(enc.len() as int) =~= enc);
    encode_utf8_valid_utf8(text);
    encode_utf8_decode_utf8(text);
}

/// Each known state has exactly one name, and names that differ from all
/// three stand for `Unknown`: no two known names give the same state.
pub proof fn lemma_state_names_distinct()
    ensures
        state_from_name("connected"@) == ConnectionState::Connected,
        state_from_name("connecting"@) == ConnectionState::Connecting,
        state_from_name("disconnected"@) == ConnectionState::Disconnected,
        state_from_name("unknown"@) == ConnectionState::Unknown,
        state_from_name(Seq::empty()) == ConnectionState::Unknown,
{
    reveal_strlit("connected");
    reveal_strlit("connecting");
    reveal_strlit("disconnected");
    reveal_strlit("unknown");
    assert("connecting"@ != "connected"@) by {
        assert("connecting"@[7] != "connected"@[7]);
    }
    assert("disconnected"@ != "connected"@) by {
        assert("disconnected"@.len() != "connected"@.len());
    }
    assert("disconnected"@ != "connecting"@) by {
        assert("disconnected"@.len() != "connecting"@.len());
    }
    assert("unknown"@ != "connected"@) by {
        assert("unknown"@.len() != "connected"@.len());
    }
    assert("unknown"@ != "connecting"@) by {
        assert("unknown"@.len() != "connecting"@.len());
    }
    assert("unknown"@ != "disconnected"@) by {
        assert("unknown"@.len() != "disconnected"@.len());
    }
}

/// The UTF-8 encoding of a scalar holds a zero byte only for the scalar 0.
proof fn lemma_scalar_zero_byte(v: u32)
    requires
        is_scalar(v),
    ensures
        encode_scalar(v).contains(0u8) <==> v == 0,
{
    let e = encode_scalar(v);
    if has_width_1_encoding(v) {
        assert(leading_byte_width_1(v) == 0u8 <==> v == 0) by (bit_vector)
            requires
                v <= 0x7F,
        ;
        assert(e[0] == leading_byte_width_1(v));
        if v == 0 {
            assert(e[0] == 0u8);
        }
    } else {
        assert(leading_byte_width_2(v) != 0u8) by (bit_vector);
        assert(leading_byte_width_3(v) != 0u8) by (bit_vector);
        assert(leading_byte_width_4(v) != 0u8) by (bit_vector);
        assert(last_continuation_byte(v) != 0u8) by (bit_vector);
        assert(second_last_continuation_byte(v) != 0u8) by (bit_vector);
        assert(third_last_continuation_byte(v) != 0u8) by (bit_vector);
        assert forall|i: int| 0 <= i < e.len() implies e[i] != 0u8 by {}
    }
}

/// A text can be handed over as a C string exactly when it holds no NUL
/// character: its UTF-8 encoding has a zero byte only where the text has '\0'.
pub proof fn lemma_nul_byte_iff_nul_char(text: Seq<char>)
    ensures
        has_nul(text) <==> text.contains('\0'),
    decreases text.len(),
{
    if text.len() > 0 {
        let rest = text.drop_first();
        lemma_nul_byte_iff_nul_char(rest);
        char_is_scalar(text[0]);
        lemma_scalar_zero_byte(text[0] as u32);
        let a = encode_scalar(text[0] as u32);
        let b = encode_utf8(rest);
        assert(encode_utf8(text) == a + b);
        if (a + b).contains(0u8) {
            let i = choose|i: int| 0 <= i < (a + b).len() && (a + b)[i] == 0u8;
            if i < a.len() {
                assert(a[i] == 0u8);
            } else {
                assert(b[i - a.len()] == 0u8);
            }
        }
        if a.contains(0u8) {
            let i = choose|i: int| 0 <= i < a.len() && a[i] == 0u8;
            assert((a + b)[i] == 0u8);
        }
        if b.contains(0u8) {
            let i = choose|i: int| 0 <= i < b.len() && b[i] == 0u8;
            assert((a + b)[i + a.len()] == 0u8);
        }
        if text.contains('\0') {
            let i = choose|i: int| 0 <= i < text.len() && text[i] == '\0';
            if i > 0 {
                assert(rest[i - 1] == '\0');
            }
        }
        if rest.contains('\0') {
            let i = choose|i: int| 0 <= i < rest.len() && rest[i] == '\0';
            assert(text[i + 1] == '\0');
        }
        if text[0] == '\0' {
            assert(text.contains('\0'));
        }
        assert(('\0' as u32) == 0u32);
        char_u32_cast(text[0], text[0] as u32);
        char_u32_cast('\0', '\0' as u32);
    }
}

/// Every option reaches the library in its own argument: each text option
/// becomes the C string of that same option (and no string where it is
/// absent), the port is the given one or -1, and each flag argument is 1
/// exactly when that same flag is set, else 0.
pub proof fn lemma_args_follow_options(o: ClientOptions, a: CreateArgs)
    requires
        args_for(o, a),
    ensures
        a.setup_key is Some <==> o.setup_key is Some,
        a.setup_key is Some ==> a.setup_key->0@ == encode_utf8(o.setup_key->0@).push(0u8),
        a.management_url is Some <==> o.management_url is Some,
        a.management_url is Some ==> a.management_url->0@ == encode_utf8(o.management_url->0@).push(0u8),
        a.device_name is Some <==> o.device_name is Some,
        a.device_name is Some ==> a.device_name->0@ == encode_utf8(o.device_name->0@).push(0u8),
        a.token is Some <==> o.token is Some,
        a.token is Some ==> a.token->0@ == encode_utf8(o.token->0@).push(0u8),
        a.private_key is Some <==> o.private_key is Some,
        a.private_key is Some ==> a.private_key->0@ == encode_utf8(o.private_key->0@).push(0u8),
        a.pre_shared_key is Some <==> o.pre_shared_key is Some,
        a.pre_shared_key is Some ==> a.pre_shared_key->0@ == encode_utf8(o.pre_shared_key->0@).push(0u8),
        a.log_level is Some <==> o.log_level is Some,
        a.log_level is Some ==> a.log_level->0@ == encode_utf8(o.log_level->0@).push(0u8),
        a.config_path is Some <==> o.config_path is Some,
        a.config_path is Some ==> a.config_path->0@ == encode_utf8(o.config_path->0@).push(0u8),
        a.state_path is Some <==> o.state_path is Some,
        a.state_path is Some ==> a.state_path->0@ == encode_utf8(o.state_path->0@).push(0u8),
        a.wireguard_port == (if o.wireguard_port is Some {
            o.wireguard_port->0
        } else {
            -1i32
        }),
        a.disable_client_routes == 1 <==> o.disable_client_routes,
        a.disable_client_routes == 0 <==> !o.disable_client_routes,
        a.block_inbound == 1 <==> o.block_inbound,
        a.block_inbound == 0 <==> !o.block_inbound,
        a.no_userspace == 1 <==> o.no_userspace,
        a.no_userspace == 0 <==> !o.no_userspace,
{
}

/// The descriptor read from four little-endian bytes is the 32-bit value
/// they encode, read as a signed `int`: the value itself below 2^31, and
/// the value minus 2^32 from there on.
pub proof fn lemma_fd_from_bytes(b: Seq<u8>)
    requires
        b.len() == 4,
    ensures
        -0x8000_0000 <= as_fd(le_u32(b)) < 0x8000_0000,
        (as_fd(le_u32(b)) + 0x1_0000_0000) % 0x1_0000_0000 == b[0] + 256 * b[1] + 65536 * b[2]
            + 16777216 * b[3],
        b[3] < 128 ==> as_fd(le_u32(b)) == b[0] + 256 * b[1] + 65536 * b[2] + 16777216 * b[3],
        b[3] >= 128 ==> as_fd(le_u32(b)) == b[0] + 256 * b[1] + 65536 * b[2] + 16777216 * b[3]
            - 0x1_0000_0000,
{
}

} // verus!
