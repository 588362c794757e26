//! Wire format of the command protocol.
//!
//! The channel speaks the datagram variant of the protocol: a request is
//! one JSON-shaped object `{"id":"<text id>","cmd":"<name>"}` holding the
//! correlation id's eleven-byte text form and the command's wire name; a
//! response is one of the tags `"Success"`, `"Wait"`, `"Error"`, or an
//! object `{"Error":"<reason>"}` carrying an opaque diagnostic. A reason
//! holding a quote or backslash byte is outside the grammar and parses as
//! unrecognized; reasons are never interpreted, only carried.

use vstd::prelude::*;

use crate::id64::Id64;
use crate::id64::encode8;
use crate::id64::u64_le_bytes;

verus! {

/// The closed command vocabulary.
#[derive(Clone, Copy, PartialEq, Eq, Structural, Debug)]
pub enum Command {
    Play,
    Stop,
    Refresh,
    BackgroundRefresh,
    Build,
    CheckAlive,
}

/// One outbound command with its correlation id.
#[derive(Clone, Copy, PartialEq, Eq, Structural, Debug)]
pub struct Request {
    pub id: Id64,
    pub cmd: Command,
}

/// A peer's answer to one request.
#[derive(Clone, PartialEq, Eq, Debug)]
pub enum Response {
    /// The peer completed the command.
    Success,
    /// The peer attempted the command and it failed; the reason, if any,
    /// is opaque diagnostic bytes.
    Error(Option<Vec<u8>>),
    /// The peer accepted the command but will answer later; the client
    /// must keep listening with no further send.
    Wait,
}

/// The mathematical shape of a response, with the reason as a sequence.
pub enum RespModel {
    Success,
    Error(Option<Seq<u8>>),
    Wait,
}

/// The model of an executable response value.
pub open spec fn resp_model(r: Response) -> RespModel {
    match r {
        Response::Success => RespModel::Success,
        Response::Wait => RespModel::Wait,
        Response::Error(None) => RespModel::Error(None),
        Response::Error(Some(v)) => RespModel::Error(Some(v@)),
    }
}

/// The wire name of a command.
pub open spec fn cmd_wire_name(c: Command) -> Seq<u8> {
    match c {
        Command::Play => seq![112u8, 108u8, 97u8, 121u8],
        Command::Stop => seq![115u8, 116u8, 111u8, 112u8],
        Command::Refresh => seq![114u8, 101u8, 102u8, 114u8, 101u8, 115u8, 104u8],
        Command::BackgroundRefresh => seq![
            98u8,
            97u8,
            99u8,
            107u8,
            103u8,
            114u8,
            111u8,
            117u8,
            110u8,
            100u8,
            95u8,
            114u8,
            101u8,
            102u8,
            114u8,
            101u8,
            115u8,
            104u8,
        ],
        Command::Build => seq![98u8, 117u8, 105u8, 108u8, 100u8],
        Command::CheckAlive => seq![
            99u8,
            104u8,
            101u8,
            99u8,
            107u8,
            95u8,
            97u8,
            108u8,
            105u8,
            118u8,
            101u8,
        ],
    }
}

/// The opening bytes of a request object: `{"id":"`.
pub open spec fn req_prefix() -> Seq<u8> {
    seq![123u8, 34u8, 105u8, 100u8, 34u8, 58u8, 34u8]
}

/// The bytes between the id and the command name: `","cmd":"`.
pub open spec fn req_mid() -> Seq<u8> {
    seq![34u8, 44u8, 34u8, 99u8, 109u8, 100u8, 34u8, 58u8, 34u8]
}

/// The closing bytes of a request object: `"}`.
pub open spec fn req_suffix() -> Seq<u8> {
    seq![34u8, 125u8]
}

/// The whole wire form of a request.
pub open spec fn request_wire(req: Request) -> Seq<u8> {
    req_prefix() + encode8(u64_le_bytes(req.id.0)) + req_mid() + cmd_wire_name(req.cmd)
        + req_suffix()
}

/// The wire tag `"Success"`.
pub open spec fn success_wire() -> Seq<u8> {
    seq![34u8, 83u8, 117u8, 99u8, 99u8, 101u8, 115u8, 115u8, 34u8]
}

/// The wire tag `"Wait"`.
pub open spec fn wait_wire() -> Seq<u8> {
    seq![34u8, 87u8, 97u8, 105u8, 116u8, 34u8]
}

/// The wire tag `"Error"`.
pub open spec fn error_wire() -> Seq<u8> {
    seq![34u8, 69u8, 114u8, 114u8, 111u8, 114u8, 34u8]
}

/// The opening bytes of an error object: `{"Error":"`.
pub open spec fn error_obj_prefix() -> Seq<u8> {
    seq![123u8, 34u8, 69u8, 114u8, 114u8, 111u8, 114u8, 34u8, 58u8, 34u8]
}

/// `s` is an error object `{"Error":"<reason>"}` whose reason holds no
/// quote and no backslash.
pub open spec fn is_error_obj(s: Seq<u8>) -> bool {
    s.len() >= 12 && s.subrange(0, 10) == error_obj_prefix() && s[s.len() - 2] == 34 && s[s.len()
        - 1] == 125 && (forall|i: int| 10 <= i < s.len() - 2 ==> s[i] != 34 && s[i] != 92)
}

/// The reason bytes of an error object.
pub open spec fn error_obj_reason(s: Seq<u8>) -> Seq<u8> {
    s.subrange(10, s.len() - 2)
}

/// What parsing a wire response returns, for every input: `None` stands
/// for an unrecognized value.
pub open spec fn parse_response_spec(s: Seq<u8>) -> Option<RespModel> {
    if s == success_wire() {
        Some(RespModel::Success)
    } else if s == wait_wire() {
        Some(RespModel::Wait)
    } else if s == error_wire() {
        Some(RespModel::Error(None))
    } else if is_error_obj(s) {
        Some(RespModel::Error(Some(error_obj_reason(s))))
    } else {
        None
    }
}

/// Append every byte of `src` to `dst`.
pub fn push_all(dst: &mut Vec<u8>, src: &[u8])
    ensures
        final(dst)@ == old(dst)@ + src@,
{
    let mut i: usize = 0;
    while i < src.len()
        invariant
            0 <= i <= src@.len(),
            dst@ == old(dst)@ + src@.subrange(0, i as int),
        decreases src@.len() - i,
    {
        dst.push(src[i]);
        proof {
            assert(old(dst)@ + src@.subrange(0, i as int) + seq![src@[i as int]] =~= old(dst)@
                + src@.subrange(0, i + 1));
        }
        i += 1;
    }
    proof {
        assert(dst@ =~= old(dst)@ + src@);
    }
}

/// Whether a slice holds exactly the bytes of `t`.
pub fn bytes_eq(s: &[u8], t: &Vec<u8>) -> (b: bool)
    ensures
        b <==> s@ == t@,
{
    if s.len() != t.len() {
        proof {
            assert(s@.len() != t@.len());
        }
        return false;
    }
    let n = s.len();
    let mut i: usize = 0;
    while i < n
        invariant
            0 <= i <= n,
            n == s@.len(),
            n == t@.len(),
            forall|j: int| 0 <= j < i ==> s@[j] == t@[j],
        decreases n - i,
    {
        if s[i] != t[i] {
            proof {
                assert(s@[i as int] != t@[i as int]);
            }
            return false;
        }
        i += 1;
    }
    proof {
        assert(s@ =~= t@);
    }
    true
}

/// The tag `"Success"` as bytes.
fn success_lit() -> (v: Vec<u8>)
    ensures
        v@ == success_wire(),
{
    let mut v: Vec<u8> = Vec::new();
    v.push(34);
    v.push(83);
    v.push(117);
    v.push(99);
    v.push(99);
    v.push(101);
    v.push(115);
    v.push(115);
    v.push(34);
    proof {
        assert(v@ =~= success_wire());
    }
    v
}

/// The tag `"Wait"` as bytes.
fn wait_lit() -> (v: Vec<u8>)
    ensures
        v@ == wait_wire(),
{
    let mut v: Vec<u8> = Vec::new();
    v.push(34);
    v.push(87);
    v.push(97);
    v.push(105);
    v.push(116);
    v.push(34);
    proof {
        assert(v@ =~= wait_wire());
    }
    v
}

/// The tag `"Error"` as bytes.
fn error_lit() -> (v: Vec<u8>)
    ensures
        v@ == error_wire(),
{
    let mut v: Vec<u8> = Vec::new();
    v.push(34);
    v.push(69);
    v.push(114);
    v.push(114);
    v.push(111);
    v.push(114);
    v.push(34);
    proof {
        assert(v@ =~= error_wire());
    }
    v
}

/// The opening of an error object, `{"Error":"`, as bytes.
fn error_obj_prefix_lit() -> (v: Vec<u8>)
    ensures
        v@ == error_obj_prefix(),
{
    let mut v: Vec<u8> = Vec::new();
    v.push(123);
    v.push(34);
    v.push(69);
    v.push(114);
    v.push(114);
    v.push(111);
    v.push(114);
    v.push(34);
    v.push(58);
    v.push(34);
    proof {
        assert(v@ =~= error_obj_prefix());
    }
    v
}

/// The wire name of a command as bytes.
pub fn cmd_name_bytes(c: Command) -> (v: Vec<u8>)
    ensures
        v@ == cmd_wire_name(c),
{
    let mut v: Vec<u8> = Vec::new();
    match c {
        Command::Play => {
            v.push(112);
            v.push(108);
            v.push(97);
            v.push(121);
        },
        Command::Stop => {
            v.push(115);
            v.push(116);
            v.push(111);
            v.push(112);
        },
        Command::Refresh => {
            v.push(114);
            v.push(101);
            v.push(102);
            v.push(114);
            v.push(101);
            v.push(115);
            v.push(104);
        },
        Command::BackgroundRefresh => {
            v.push(98);
            v.push(97);
            v.push(99);
            v.push(107);
            v.push(103);
            v.push(114);
            v.push(111);
            v.push(117);
            v.push(110);
            v.push(100);
            v.push(95);
            v.push(114);
            v.push(101);
            v.push(102);
            v.push(114);
            v.push(101);
            v.push(115);
            v.push(104);
        },
        Command::Build => {
            v.push(98);
            v.push(117);
            v.push(105);
            v.push(108);
            v.push(100);
        },
        Command::CheckAlive => {
            v.push(99);
            v.push(104);
            v.push(101);
            v.push(99);
            v.push(107);
            v.push(95);
            v.push(97);
            v.push(108);
            v.push(105);
            v.push(118);
            v.push(101);
        },
    }
    proof {
        assert(v@ =~= cmd_wire_name(c));
    }
    v
}

/// Serialize a request into its wire form.
pub fn encode_request(req: &Request) -> (r: Vec<u8>)
    ensures
        r@ == request_wire(*req),
{
    let mut r: Vec<u8> = Vec::new();
    r.push(123);
    r.push(34);
    r.push(105);
    r.push(100);
    r.push(34);
    r.push(58);
    r.push(34);
    proof {
        assert(r@ =~= req_prefix());
    }
    let idtext = req.id.encode();
    push_all(&mut r, idtext.as_slice());
    r.push(34);
    r.push(44);
    r.push(34);
    r.push(99);
    r.push(109);
    r.push(100);
    r.push(34);
    r.push(58);
    r.push(34);
    proof {
        assert(r@ =~= req_prefix() + encode8(u64_le_bytes(req.id.0)) + req_mid());
    }
    let name = cmd_name_bytes(req.cmd);
    push_all(&mut r, name.as_slice());
    r.push(34);
    r.push(125);
    proof {
        assert(r@ =~= request_wire(*req));
    }
    r
}

/// Parse one wire response; `None` is an unrecognized value.
pub fn parse_response(s: &[u8]) -> (r: Option<Response>)
    ensures
        r is Some <==> parse_response_spec(s@) is Some,
        r matches Some(resp) ==> parse_response_spec(s@) == Some(resp_model(resp)),
{
    if bytes_eq(s, &success_lit()) {
        return Some(Response::Success);
    }
    if bytes_eq(s, &wait_lit()) {
        return Some(Response::Wait);
    }
    if bytes_eq(s, &error_lit()) {
        return Some(Response::Error(None));
    }
    let n = s.len();
    if n < 12 {
        return None;
    }
    let prefix = error_obj_prefix_lit();
    let mut i: usize = 0;
    while i < 10
        invariant
            0 <= i <= 10,
            n == s@.len(),
            n >= 12,
            prefix@ == error_obj_prefix(),
            forall|j: int| 0 <= j < i ==> s@[j] == error_obj_prefix()[j],
        decreases 10 - i,
    {
        if s[i] != prefix[i] {
            proof {
                assert(s@.subrange(0, 10)[i as int] != error_obj_prefix()[i as int]);
            }
            return None;
        }
        i += 1;
    }
    proof {
        assert(s@.subrange(0, 10) =~= error_obj_prefix());
    }
    if s[n - 2] != 34 || s[n - 1] != 125 {
        return None;
    }
    let mut reason: Vec<u8> = Vec::new();
    let mut k: usize = 10;
    while k < n - 2
        invariant
            10 <= k <= n - 2,
            n == s@.len(),
            n >= 12,
            reason@ == s@.subrange(10, k as int),
            forall|j: int| 10 <= j < k ==> s@[j] != 34 && s@[j] != 92,
        decreases n - 2 - k,
    {
        let c = s[k];
        if c == 34 || c == 92 {
            return None;
        }
        reason.push(c);
        proof {
            assert(s@.subrange(10, k as int) + seq![s@[k as int]] =~= s@.subrange(10, k + 1));
        }
        k += 1;
    }
    proof {
        assert(is_error_obj(s@));
        assert(reason@ =~= error_obj_reason(s@));
    }
    Some(Response::Error(Some(reason)))
}

} // verus!
