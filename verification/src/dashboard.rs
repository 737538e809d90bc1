//! The decisions of the Edge dashboard: where its configuration is read
//! from, which address it listens on, and how it answers `/api/modules`.
use vstd::prelude::*;

verus! {

/// The configuration file read when none is given, off Windows.
pub open spec fn unix_default_config_path() -> Seq<char> {
    "/etc/iotedge/config.yaml"@
}

/// The configuration file read when none is given and neither Windows
/// application data variable is set.
pub open spec fn windows_fallback_config_path() -> Seq<char> {
    "C:/ProgramData/iotedge/config.yaml"@
}

/// The configuration path used when none is given. Off Windows it is fixed;
/// on Windows it is the value of `CSIDL_COMMON_APPDATA` if set, else that of
/// `ProgramData` if set, else a fixed path.
pub open spec fn spec_default_config_path(
    on_windows: bool,
    common_appdata: Option<Seq<char>>,
    program_data: Option<Seq<char>>,
) -> Seq<char> {
    if !on_windows {
        unix_default_config_path()
    } else {
        match common_appdata {
            Some(p) => p,
            None => match program_data {
                Some(p) => p,
                None => windows_fallback_config_path(),
            },
        }
    }
}

/// The configuration path used when none is given; `common_appdata` and
/// `program_data` are the values of the Windows environment variables
/// `CSIDL_COMMON_APPDATA` and `ProgramData`, if set.
pub fn default_config_path(
    on_windows: bool,
    common_appdata: Option<String>,
    program_data: Option<String>,
) -> (r: String)
    ensures
        r@ == spec_default_config_path(
            on_windows,
            match common_appdata { Some(s) => Some(s@), None => None },
            match program_data { Some(s) => Some(s@), None => None },
        ),
        !on_windows ==> r@ == "/etc/iotedge/config.yaml"@,
        on_windows ==> match (common_appdata, program_data) {
            (Some(a), _) => r@ == a@,
            (None, Some(b)) => r@ == b@,
            (None, None) => r@ == "C:/ProgramData/iotedge/config.yaml"@,
        },
{
    if !on_windows {
        "/etc/iotedge/config.yaml".to_owned()
    } else {
        match common_appdata {
            Some(p) => p,
            None => match program_data {
                Some(p) => p,
                None => "C:/ProgramData/iotedge/config.yaml".to_owned(),
            },
        }
    }
}

/// Off Windows the default path is `/etc/iotedge/config.yaml` whatever the
/// environment holds; on Windows it is the first variable that is set, else
/// `C:/ProgramData/iotedge/config.yaml`.
pub proof fn law_default_config_path(on_windows: bool, a: Option<Seq<char>>, b: Option<Seq<char>>)
    ensures
        !on_windows ==> spec_default_config_path(on_windows, a, b) == "/etc/iotedge/config.yaml"@,
        on_windows && a is Some ==> spec_default_config_path(on_windows, a, b) == a->0,
        on_windows && a is None && b is Some ==> spec_default_config_path(on_windows, a, b) == b->0,
        on_windows && a is None && b is None ==> spec_default_config_path(on_windows, a, b)
            == "C:/ProgramData/iotedge/config.yaml"@,
{
}

/// The configuration path: the one given, else the default.
pub fn config_path(given: Option<&str>, default: String) -> (r: String)
    ensures
        match given {
            Some(p) => r@ == p@,
            None => r@ == default@,
        },
{
    match given {
        Some(p) => p.to_owned(),
        None => default,
    }
}

/// The decimal digit `d` as a character.
pub open spec fn digit_char(d: nat) -> char {
    if d == 0 { '0' }
    else if d == 1 { '1' }
    else if d == 2 { '2' }
    else if d == 3 { '3' }
    else if d == 4 { '4' }
    else if d == 5 { '5' }
    else if d == 6 { '6' }
    else if d == 7 { '7' }
    else if d == 8 { '8' }
    else { '9' }
}

/// The decimal notation of `n`, without leading zeros.
pub open spec fn decimal(n: nat) -> Seq<char>
    decreases n,
{
    if n < 10 {
        seq![digit_char(n)]
    } else {
        decimal(n / 10).push(digit_char(n % 10))
    }
}

/// The value of a string of decimal digits.
pub open spec fn numeral_value(s: Seq<char>) -> nat
    decreases s.len(),
{
    if s.len() == 0 {
        0
    } else {
        numeral_value(s.drop_last()) * 10 + ((s.last() as int - '0' as int) as nat)
    }
}

/// True when every character of `s` is one of `0` to `9`.
pub open spec fn all_digits(s: Seq<char>) -> bool {
    forall|i: int| 0 <= i < s.len() ==> '0' <= #[trigger] s[i] <= '9'
}

/// Each digit character is the character `d` places after `0`.
pub proof fn law_digit_char(d: nat)
    requires
        d < 10,
    ensures
        digit_char(d) as int == '0' as int + d,
        '0' <= digit_char(d) <= '9',
{
}

/// The decimal notation of `n` is the standard base-10 numeral of `n`: made
/// of digits only, without a leading zero, and read back it gives `n`.
pub proof fn law_decimal_reads_back(n: nat)
    ensures
        all_digits(decimal(n)),
        numeral_value(decimal(n)) == n,
        decimal(n).len() >= 1,
        decimal(n).len() > 1 ==> decimal(n)[0] != '0',
    decreases n,
{
    law_digit_char(n % 10);
    if n >= 10 {
        law_decimal_reads_back(n / 10);
        let prefix = decimal(n / 10);
        let s = prefix.push(digit_char(n % 10));
        assert(s.drop_last() =~= prefix);
        assert(s.last() == digit_char(n % 10));
        assert(numeral_value(s) == numeral_value(prefix) * 10 + (n % 10));
        assert(n == (n / 10) * 10 + n % 10);
        assert(s[0] == prefix[0]);
        if prefix.len() == 1 {
            assert(n / 10 < 10) by {
                if n / 10 >= 10 {
                    assert(decimal(n / 10).len() == decimal(n / 10 / 10).len() + 1);
                    law_decimal_reads_back(n / 10 / 10);
                }
            }
            assert(n / 10 != 0);
            law_digit_char(n / 10);
        }
        assert forall|i: int| 0 <= i < s.len() implies '0' <= #[trigger] s[i] <= '9' by {
            if i < prefix.len() {
                assert(s[i] == prefix[i]);
            }
        }
    } else {
        let s = decimal(n);
        assert(s =~= seq![digit_char(n)]);
        assert(s.drop_last() =~= Seq::<char>::empty());
        assert(numeral_value(s.drop_last()) == 0);
        assert(s.last() == digit_char(n));
        assert(n % 10 == n);
    }
}

fn digit_str(d: u16) -> (r: &'static str)
    requires
        d < 10,
    ensures
        r@ == seq![digit_char(d as nat)],
{
    if d == 0 {
        proof { reveal_strlit("0"); }
        "0"
    } else if d == 1 {
        proof { reveal_strlit("1"); }
        "1"
    } else if d == 2 {
        proof { reveal_strlit("2"); }
        "2"
    } else if d == 3 {
        proof { reveal_strlit("3"); }
        "3"
    } else if d == 4 {
        proof { reveal_strlit("4"); }
        "4"
    } else if d == 5 {
        proof { reveal_strlit("5"); }
        "5"
    } else if d == 6 {
        proof { reveal_strlit("6"); }
        "6"
    } else if d == 7 {
        proof { reveal_strlit("7"); }
        "7"
    } else if d == 8 {
        proof { reveal_strlit("8"); }
        "8"
    } else {
        proof { reveal_strlit("9"); }
        "9"
    }
}

/// Appends the decimal notation of `n` to `s`.
pub fn push_decimal(s: &mut String, n: u16)
    ensures
        final(s)@ == old(s)@ + decimal(n as nat),
    decreases n,
{
    if n >= 10 {
        push_decimal(s, n / 10);
    }
    let ghost before = s@;
    s.push_str(digit_str(n % 10));
    assert(old(s)@ + decimal(n as nat) =~= before + seq![digit_char((n % 10) as nat)]);
}

/// The address the dashboard listens on: `host:port`.
pub fn listen_address(host: &str, port: u16) -> (r: String)
    ensures
        r@ == host@ + ":"@ + decimal(port as nat),
{
    let mut address = host.to_owned();
    address.push_str(":");
    push_decimal(&mut address, port);
    address
}

/// An HTTP answer: status code, content type and body.
pub struct HttpReply {
    pub status: u16,
    pub content_type: String,
    pub body: String,
}

/// The answer to `GET /api/modules`: when the configuration was read,
/// `200 OK` as HTML with the rendered Moby runtime URI; when it was not,
/// `503 Service Unavailable` as plain text with the rendered error.
pub fn modules_response(config: Result<String, String>) -> (r: HttpReply)
    ensures
        match config {
            Ok(uri) => {
                &&& r.status == 200
                &&& r.content_type@ == "text/html"@
                &&& r.body@ == uri@
            },
            Err(err) => {
                &&& r.status == 503
                &&& r.content_type@ == "text/plain"@
                &&& r.body@ == err@
            },
        },
{
    match config {
        Ok(uri) => HttpReply { status: 200, content_type: "text/html".to_owned(), body: uri },
        Err(err) => HttpReply { status: 503, content_type: "text/plain".to_owned(), body: err },
    }
}

} // verus!
