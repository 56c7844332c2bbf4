//! The process configuration: the three listener ports and the
//! auto-approve switch, and the exact reading of the command-line flags
//! that set them. The surrounding process hands the raw argument bytes in
//! (program name already skipped) and binds its listeners to the result.

use vstd::prelude::*;

verus! {

/// The three listener ports and the approval mode.
#[derive(Clone, Copy, PartialEq, Eq, Structural, Debug)]
pub struct Settings {
    pub http_port: u16,
    pub ws_port: u16,
    pub udp_port: u16,
    pub auto_approve: bool,
}

/// The settings used when no flag overrides them.
pub open spec fn default_settings() -> Settings {
    Settings { http_port: 8080, ws_port: 9001, udp_port: 9002, auto_approve: false }
}

/// An ASCII decimal digit.
pub open spec fn is_digit(b: u8) -> bool {
    48 <= b && b <= 57
}

/// The number spelled by a sequence of ASCII digits, most significant
/// first.
pub open spec fn digits_value(s: Seq<u8>) -> int
    decreases s.len(),
{
    if s.len() == 0 {
        0
    } else {
        digits_value(s.drop_last()) * 10 + (s.last() - 48)
    }
}

/// The digits of a spelled number: an optional leading plus sign is
/// allowed and skipped.
pub open spec fn numeric_body(s: Seq<u8>) -> Seq<u8> {
    if s.len() > 0 && s[0] == 43 {
        s.drop_first()
    } else {
        s
    }
}

/// The bytes spell a u16: at least one digit after the optional sign, no
/// other characters, and a value that fits.
pub open spec fn spells_u16(s: Seq<u8>) -> bool {
    let d = numeric_body(s);
    &&& d.len() > 0
    &&& (forall|k: int| 0 <= k < d.len() ==> is_digit(d[k]))
    &&& digits_value(d) <= 65535
}

/// The port value an argument sets: the spelled number if the bytes spell
/// a u16, the previous value otherwise.
pub open spec fn spec_parse_u16_or(s: Seq<u8>, default: u16) -> u16 {
    if spells_u16(s) {
        digits_value(numeric_body(s)) as u16
    } else {
        default
    }
}

/// Read a port argument: the spelled value, or `default` if the bytes do
/// not spell a u16.
pub fn parse_u16_or(s: &Vec<u8>, default: u16) -> (r: u16)
    ensures
        r == spec_parse_u16_or(s@, default),
{
    let n = s.len();
    let mut start: usize = 0;
    if n > 0 && s[0] == 43 {
        start = 1;
    }
    proof {
        if n > 0 && s@[0] == 43 {
            assert(s@.drop_first() =~= s@.subrange(1, n as int));
        } else {
            assert(s@.subrange(0, n as int) =~= s@);
        }
        assert(numeric_body(s@) == s@.subrange(start as int, n as int));
    }
    if start >= n {
        return default;
    }
    let mut acc: u32 = 0;
    let mut k: usize = start;
    while k < n
        invariant
            start <= k <= n,
            n == s.len(),
            start <= 1,
            numeric_body(s@) == s@.subrange(start as int, n as int),
            forall|m: int| start <= m < k ==> is_digit(s@[m]),
            (acc <= 65535 && acc == digits_value(s@.subrange(start as int, k as int))) || (acc
                == 65536 && digits_value(s@.subrange(start as int, k as int)) > 65535),
        decreases n - k,
    {
        let b = s[k];
        if b < 48 || b > 57 {
            proof {
                assert(numeric_body(s@)[k - start] == s@[k as int]);
            }
            return default;
        }
        proof {
            assert(s@.subrange(start as int, k as int + 1).drop_last() =~= s@.subrange(
                start as int,
                k as int,
            ));
            assert(s@.subrange(start as int, k as int + 1).last() == s@[k as int]);
        }
        if acc <= 65535 {
            let m2: u32 = acc * 10 + ((b - 48) as u32);
            if m2 <= 65535 {
                acc = m2;
            } else {
                acc = 65536;
            }
        }
        k = k + 1;
    }
    proof {
        assert forall|kk: int| 0 <= kk < numeric_body(s@).len() implies is_digit(
            numeric_body(s@)[kk],
        ) by {
            assert(numeric_body(s@)[kk] == s@[start + kk]);
        }
    }
    if acc <= 65535 {
        proof {
            assert(spells_u16(s@));
        }
        acc as u16
    } else {
        proof {
            assert(!spells_u16(s@));
        }
        default
    }
}

/// The bytes of "--port".
pub open spec fn flag_http_port() -> Seq<u8> {
    seq![45u8, 45u8, 112u8, 111u8, 114u8, 116u8]
}

/// The bytes of "--ws-port".
pub open spec fn flag_ws_port() -> Seq<u8> {
    seq![45u8, 45u8, 119u8, 115u8, 45u8, 112u8, 111u8, 114u8, 116u8]
}

/// The bytes of "--udp-port".
pub open spec fn flag_udp_port() -> Seq<u8> {
    seq![45u8, 45u8, 117u8, 100u8, 112u8, 45u8, 112u8, 111u8, 114u8, 116u8]
}

/// The bytes of "--auto-approve".
pub open spec fn flag_auto_approve() -> Seq<u8> {
    seq![
        45u8,
        45u8,
        97u8,
        117u8,
        116u8,
        111u8,
        45u8,
        97u8,
        112u8,
        112u8,
        114u8,
        111u8,
        118u8,
        101u8,
    ]
}

fn flag_http_port_vec() -> (v: Vec<u8>)
    ensures
        v@ == flag_http_port(),
{
    let mut v: Vec<u8> = Vec::new();
    v.push(45);
    v.push(45);
    v.push(112);
    v.push(111);
    v.push(114);
    v.push(116);
    proof {
        assert(v@ =~= flag_http_port());
    }
    v
}

fn flag_ws_port_vec() -> (v: Vec<u8>)
    ensures
        v@ == flag_ws_port(),
{
    let mut v: Vec<u8> = Vec::new();
    v.push(45);
    v.push(45);
    v.push(119);
    v.push(115);
    v.push(45);
    v.push(112);
    v.push(111);
    v.push(114);
    v.push(116);
    proof {
        assert(v@ =~= flag_ws_port());
    }
    v
}

fn flag_udp_port_vec() -> (v: Vec<u8>)
    ensures
        v@ == flag_udp_port(),
{
    let mut v: Vec<u8> = Vec::new();
    v.push(45);
    v.push(45);
    v.push(117);
    v.push(100);
    v.push(112);
    v.push(45);
    v.push(112);
    v.push(111);
    v.push(114);
    v.push(116);
    proof {
        assert(v@ =~= flag_udp_port());
    }
    v
}

fn flag_auto_approve_vec() -> (v: Vec<u8>)
    ensures
        v@ == flag_auto_approve(),
{
    let mut v: Vec<u8> = Vec::new();
    v.push(45);
    v.push(45);
    v.push(97);
    v.push(117);
    v.push(116);
    v.push(111);
    v.push(45);
    v.push(97);
    v.push(112);
    v.push(112);
    v.push(114);
    v.push(111);
    v.push(118);
    v.push(101);
    proof {
        assert(v@ =~= flag_auto_approve());
    }
    v
}

fn bytes_eq(a: &Vec<u8>, b: &Vec<u8>) -> (r: bool)
    ensures
        r == (a@ == b@),
{
    if a.len() != b.len() {
        return false;
    }
    let n = a.len();
    let mut k: usize = 0;
    while k < n
        invariant
            k <= n,
            n == a.len(),
            n == b.len(),
            forall|m: int| 0 <= m < k ==> a@[m] == b@[m],
        decreases n - k,
    {
        if a[k] != b[k] {
            return false;
        }
        k = k + 1;
    }
    proof {
        assert(a@ =~= b@);
    }
    true
}

/// The settings after reading the arguments from position `k` on, starting
/// from `cur`: a port flag followed by a value sets that port (an
/// unreadable value keeps the previous one); a port flag with nothing after
/// it ends the reading; the auto-approve flag sets the switch; anything
/// else is skipped.
pub open spec fn spec_parse_args_from(args: Seq<Seq<u8>>, k: int, cur: Settings) -> Settings
    decreases args.len() - k,
{
    if k < 0 || k >= args.len() {
        cur
    } else if args[k] == flag_http_port() {
        if k + 1 < args.len() {
            spec_parse_args_from(
                args,
                k + 2,
                Settings { http_port: spec_parse_u16_or(args[k + 1], cur.http_port), ..cur },
            )
        } else {
            cur
        }
    } else if args[k] == flag_ws_port() {
        if k + 1 < args.len() {
            spec_parse_args_from(
                args,
                k + 2,
                Settings { ws_port: spec_parse_u16_or(args[k + 1], cur.ws_port), ..cur },
            )
        } else {
            cur
        }
    } else if args[k] == flag_udp_port() {
        if k + 1 < args.len() {
            spec_parse_args_from(
                args,
                k + 2,
                Settings { udp_port: spec_parse_u16_or(args[k + 1], cur.udp_port), ..cur },
            )
        } else {
            cur
        }
    } else if args[k] == flag_auto_approve() {
        spec_parse_args_from(args, k + 1, Settings { auto_approve: true, ..cur })
    } else {
        spec_parse_args_from(args, k + 1, cur)
    }
}

/// The settings the command line yields, starting from the defaults.
pub open spec fn spec_parse_args(args: Seq<Seq<u8>>) -> Settings {
    spec_parse_args_from(args, 0, default_settings())
}

/// Read the command-line arguments (program name already skipped, each
/// argument as its raw bytes) into the settings.
pub fn parse_args(args: &Vec<Vec<u8>>) -> (s: Settings)
    ensures
        s == spec_parse_args(args.deep_view()),
{
    let mut cur = Settings { http_port: 8080, ws_port: 9001, udp_port: 9002, auto_approve: false };
    let n = args.len();
    let mut k: usize = 0;
    while k < n
        invariant
            k <= n,
            n == args.len(),
            spec_parse_args_from(args.deep_view(), k as int, cur) == spec_parse_args(
                args.deep_view(),
            ),
        decreases n - k,
    {
        proof {
            assert(args.deep_view()[k as int] =~= args@[k as int]@);
            if k + 1 < n {
                assert(args.deep_view()[k as int + 1] =~= args@[k as int + 1]@);
            }
        }
        let a = &args[k];
        if bytes_eq(a, &flag_http_port_vec()) {
            if k + 1 < n {
                let v = parse_u16_or(&args[k + 1], cur.http_port);
                cur =
                Settings {
                    http_port: v,
                    ws_port: cur.ws_port,
                    udp_port: cur.udp_port,
                    auto_approve: cur.auto_approve,
                };
                k = k + 2;
            } else {
                k = n;
            }
        } else if bytes_eq(a, &flag_ws_port_vec()) {
            if k + 1 < n {
                let v = parse_u16_or(&args[k + 1], cur.ws_port);
                cur =
                Settings {
                    http_port: cur.http_port,
                    ws_port: v,
                    udp_port: cur.udp_port,
                    auto_approve: cur.auto_approve,
                };
                k = k + 2;
            } else {
                k = n;
            }
        } else if bytes_eq(a, &flag_udp_port_vec()) {
            if k + 1 < n {
                let v = parse_u16_or(&args[k + 1], cur.udp_port);
                cur =
                Settings {
                    http_port: cur.http_port,
                    ws_port: cur.ws_port,
                    udp_port: v,
                    auto_approve: cur.auto_approve,
                };
                k = k + 2;
            } else {
                k = n;
            }
        } else if bytes_eq(a, &flag_auto_approve_vec()) {
            cur =
            Settings {
                http_port: cur.http_port,
                ws_port: cur.ws_port,
                udp_port: cur.udp_port,
                auto_approve: true,
            };
            k = k + 1;
        } else {
            k = k + 1;
        }
    }
    cur
}

} // verus!
