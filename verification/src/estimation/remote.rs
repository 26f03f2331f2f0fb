//! The remote-delegation strategy's pure pieces.
//!
//! The network call itself lives outside the library; here live the parts
//! that decide and compute: parsing the endpoint URL, splitting a raw
//! HTTP/1.1 response into status code and body, and turning the call's
//! outcome into a wait-time estimate, falling back to a local strategy when
//! anything went wrong.

use vstd::prelude::*;
use vstd::string::{StrSliceExecFns, StringExecFns};
use crate::estimation::model::{no_data_estimate, EstimationModel, Model};
use crate::state::{SensorObstruction, WaitTimeErrorCode, WaitTimeEstimate, WaitTimeStatus};

verus! {

/// Failures of the remote predictor call.
#[derive(Debug, Clone, PartialEq, Eq)]
pub enum RemoteError {
    InvalidUrl(String),
    Dns(String),
    Connect(String),
    Io(String),
    Http(u16, String),
    Json(String),
    Timestamp(String),
}

/// The human-readable description of each remote failure.
pub open spec fn spec_remote_message(e: RemoteError) -> Seq<char> {
    match e {
        RemoteError::InvalidUrl(m) => "invalid url: "@ + m@,
        RemoteError::Dns(m) => "dns error: "@ + m@,
        RemoteError::Connect(m) => "connect error: "@ + m@,
        RemoteError::Io(m) => "io error: "@ + m@,
        RemoteError::Http(code, _) => "http status "@ + crate::text::spec_dec(code as nat),
        RemoteError::Json(m) => "json error: "@ + m@,
        RemoteError::Timestamp(m) => "timestamp error: "@ + m@,
    }
}

impl RemoteError {
    /// Render the failure as its description.
    pub fn message(&self) -> (r: String)
        ensures
            r@ == spec_remote_message(*self),
    {
        match self {
            RemoteError::InvalidUrl(m) => {
                let mut s = "invalid url: ".to_owned();
                s.append(m.as_str());
                s
            },
            RemoteError::Dns(m) => {
                let mut s = "dns error: ".to_owned();
                s.append(m.as_str());
                s
            },
            RemoteError::Connect(m) => {
                let mut s = "connect error: ".to_owned();
                s.append(m.as_str());
                s
            },
            RemoteError::Io(m) => {
                let mut s = "io error: ".to_owned();
                s.append(m.as_str());
                s
            },
            RemoteError::Http(code, _) => {
                let mut s = "http status ".to_owned();
                s.append(crate::text::dec_u64(*code as u64).as_str());
                s
            },
            RemoteError::Json(m) => {
                let mut s = "json error: ".to_owned();
                s.append(m.as_str());
                s
            },
            RemoteError::Timestamp(m) => {
                let mut s = "timestamp error: ".to_owned();
                s.append(m.as_str());
                s
            },
        }
    }
}

/// An endpoint split into the pieces a plain HTTP/1.1 request needs.
#[derive(Debug, Clone, PartialEq, Eq)]
pub struct ParsedUrl {
    pub host: String,
    pub port: u16,
    pub path: String,
}

/// Index of the first occurrence of `c` in `s` at or after `i`, or -1.
pub open spec fn spec_find_from(s: Seq<char>, c: char, i: int) -> int
    decreases s.len() - i,
{
    if i < 0 || i >= s.len() {
        -1
    } else if s[i] == c {
        i
    } else {
        spec_find_from(s, c, i + 1)
    }
}

/// Index of the first occurrence of `c` in `s`, or -1.
pub open spec fn spec_find(s: Seq<char>, c: char) -> int {
    spec_find_from(s, c, 0)
}

/// Value of the decimal digits `s`, provided every character is a digit.
pub open spec fn spec_digits_value(s: Seq<char>) -> int
    decreases s.len(),
{
    if s.len() == 0 {
        0
    } else {
        spec_digits_value(s.drop_last()) * 10 + (s.last() as int - '0' as int)
    }
}

/// Every character of `s` is a decimal digit.
pub open spec fn spec_all_digits(s: Seq<char>) -> bool {
    forall|j: int| 0 <= j < s.len() ==> '0' <= #[trigger] s[j] <= '9'
}

/// What `str::parse::<u16>` accepts: an optional leading `+`, then at least
/// one digit, with a value that fits `u16`.
pub open spec fn spec_parse_u16(s: Seq<char>) -> Option<u16> {
    let digits = if s.len() > 0 && s[0] == '+' {
        s.skip(1)
    } else {
        s
    };
    if digits.len() > 0 && spec_all_digits(digits) && spec_digits_value(digits) <= u16::MAX {
        Some(spec_digits_value(digits) as u16)
    } else {
        None
    }
}

/// Parse an unsigned 16-bit decimal number as `str::parse::<u16>` does.
#[verifier::loop_isolation(false)]
fn parse_u16_chars(chars: &Vec<char>, from: usize, to: usize) -> (r: Option<u16>)
    requires
        from <= to <= chars@.len(),
    ensures
        r == spec_parse_u16(chars@.subrange(from as int, to as int)),
{
    let ghost whole = chars@.subrange(from as int, to as int);
    let start: usize = if from < to && chars[from] == '+' {
        from + 1
    } else {
        from
    };
    let ghost digits = chars@.subrange(start as int, to as int);
    proof {
        if from < to && chars@[from as int] == '+' {
            assert(whole.skip(1) =~= digits);
        } else {
            assert(whole =~= digits);
        }
    }
    if start == to {
        return None;
    }
    let mut value: u64 = 0;
    let mut index: usize = start;
    while index < to
        invariant
            start <= index <= to <= chars@.len(),
            digits == chars@.subrange(start as int, to as int),
            spec_all_digits(chars@.subrange(start as int, index as int)),
            value <= 70000,
            spec_digits_value(chars@.subrange(start as int, index as int)) <= u16::MAX
                ==> value == spec_digits_value(chars@.subrange(start as int, index as int)),
            spec_digits_value(chars@.subrange(start as int, index as int)) > u16::MAX ==> value
                > u16::MAX,
        decreases to - index,
    {
        let c = chars[index];
        if c < '0' || c > '9' {
            proof {
                assert(digits[index - start] == c);
                assert(!spec_all_digits(digits));
            }
            return None;
        }
        let d: u32 = c as u32 - 48;
        proof {
            assert(chars@.subrange(start as int, index + 1).drop_last() =~= chars@.subrange(
                start as int,
                index as int,
            ));
            assert(chars@.subrange(start as int, index + 1).last() == c);
        }
        let grown: u64 = value * 10 + (d as u64);
        value = if grown > 70000 {
            70000
        } else {
            grown
        };
        index = index + 1;
    }
    proof {
        assert(chars@.subrange(start as int, to as int) =~= digits);
    }
    if value <= u16::MAX as u64 {
        Some(value as u16)
    } else {
        None
    }
}

/// The characters of `s`, in order.
fn str_chars(s: &str) -> (v: Vec<char>)
    ensures
        v@ == s@,
{
    let n = s.unicode_len();
    let mut v: Vec<char> = Vec::new();
    let mut index: usize = 0;
    while index < n
        invariant
            n == s@.len(),
            index <= n,
            v@ =~= s@.subrange(0, index as int),
        decreases n - index,
    {
        v.push(s.get_char(index));
        index = index + 1;
    }
    proof {
        assert(s@.subrange(0, s@.len() as int) =~= s@);
    }
    v
}

/// Index of the first occurrence of `c` in `s`, if any.
fn find_char(chars: &Vec<char>, c: char) -> (r: Option<usize>)
    ensures
        r matches Some(i) ==> i == spec_find(chars@, c) && i < chars@.len(),
        r is None ==> spec_find(chars@, c) == -1,
{
    let mut index: usize = 0;
    while index < chars.len()
        invariant
            index <= chars@.len(),
            spec_find(chars@, c) == spec_find_from(chars@, c, index as int),
        decreases chars@.len() - index,
    {
        if chars[index] == c {
            return Some(index);
        }
        index = index + 1;
    }
    None
}

/// The endpoint decomposition `parse_http_url` performs: an `http://`
/// prefix, then a host, an optional `:port` (default 80), and a path that
/// always starts with `/`.
pub open spec fn spec_parse_url(s: Seq<char>) -> Option<(Seq<char>, u16, Seq<char>)> {
    if !(s.len() >= 7 && s.subrange(0, 7) == "http://"@) {
        None
    } else {
        let rest = s.skip(7);
        let slash = spec_find(rest, '/');
        let host_port = if slash < 0 {
            rest
        } else {
            rest.take(slash)
        };
        let path = if slash >= 0 && slash + 1 < rest.len() {
            "/"@ + rest.skip(slash + 1)
        } else {
            "/"@
        };
        let colon = spec_find(host_port, ':');
        let host = if colon < 0 {
            host_port
        } else {
            host_port.take(colon)
        };
        if host.len() == 0 {
            None
        } else if colon < 0 || colon == host_port.len() - 1 {
            Some((host, 80u16, path))
        } else {
            match spec_parse_u16(host_port.skip(colon + 1)) {
                Some(port) => Some((host, port, path)),
                None => None,
            }
        }
    }
}

/// Split an `http://host[:port][/path]` endpoint into host, port and path.
///
/// Succeeds exactly when the endpoint carries the `http://` prefix, a
/// nonempty host, and — if a nonempty port section is present — a valid
/// decimal port; the port defaults to 80 and the path to `/`.
pub fn parse_http_url(endpoint: &str) -> (r: Result<ParsedUrl, RemoteError>)
    ensures
        r is Ok <==> spec_parse_url(endpoint@) is Some,
        r matches Ok(u) ==> spec_parse_url(endpoint@) == Some((u.host@, u.port, u.path@)),
        r matches Err(e) ==> e is InvalidUrl,
{
    let n = endpoint.unicode_len();
    if n < 7 {
        proof {
            assert(spec_parse_url(endpoint@) is None);
        }
        return Err(RemoteError::InvalidUrl("only http:// supported".to_owned()));
    }
    let prefix = endpoint.substring_char(0, 7);
    if !crate::text::str_eq(prefix, "http://") {
        return Err(RemoteError::InvalidUrl("only http:// supported".to_owned()));
    }

    let rest = endpoint.substring_char(7, n);
    let rest_chars = str_chars(rest);
    let ghost rest_view = endpoint@.skip(7);
    proof {
        assert(rest@ =~= rest_view);
    }

    let rest_len = rest_chars.len();
    let slash = find_char(&rest_chars, '/');

    let host_port_end: usize = match slash {
        Some(i) => i,
        None => rest_len,
    };
    let host_port = rest.substring_char(0, host_port_end);
    let ghost host_port_view = if spec_find(rest_view, '/') < 0 {
        rest_view
    } else {
        rest_view.take(spec_find(rest_view, '/'))
    };
    proof {
        assert(host_port@ =~= host_port_view);
    }

    let path: String = match slash {
        Some(i) if i + 1 < rest_len => {
            let mut p = "/".to_owned();
            p.append(rest.substring_char(i + 1, rest_len));
            proof {
                assert(p@ =~= "/"@ + rest_view.skip(spec_find(rest_view, '/') + 1));
            }
            p
        },
        _ => "/".to_owned(),
    };

    let host_port_chars = str_chars(host_port);
    let colon = find_char(&host_port_chars, ':');
    let host_end: usize = match colon {
        Some(i) => i,
        None => host_port_end,
    };
    let host = host_port.substring_char(0, host_end);
    if host.unicode_len() == 0 {
        return Err(RemoteError::InvalidUrl("missing host".to_owned()));
    }

    let port: u16 = match colon {
        Some(i) if i + 1 < host_port_end => {
            match parse_u16_chars(&host_port_chars, i + 1, host_port_end) {
                Some(port) => {
                    proof {
                        assert(host_port_chars@.subrange(
                            spec_find(host_port_view, ':') + 1,
                            host_port_view.len() as int,
                        ) =~= host_port_view.skip(spec_find(host_port_view, ':') + 1));
                    }
                    port
                },
                None => {
                    return Err(RemoteError::InvalidUrl("invalid port".to_owned()));
                },
            }
        },
        _ => 80,
    };

    Ok(ParsedUrl { host: host.to_owned(), port, path })
}

/// There is a blank line (CRLF CRLF) starting at index `i`.
pub open spec fn spec_blank_at(s: Seq<char>, i: int) -> bool {
    &&& 0 <= i && i + 4 <= s.len()
    &&& s[i] == '\r' && s[i + 1] == '\n' && s[i + 2] == '\r' && s[i + 3] == '\n'
}

/// Index of the first blank line at or after `i`, or -1.
pub open spec fn spec_blank_from(s: Seq<char>, i: int) -> int
    decreases s.len() - i,
{
    if i < 0 || i + 4 > s.len() {
        -1
    } else if spec_blank_at(s, i) {
        i
    } else {
        spec_blank_from(s, i + 1)
    }
}

/// One character is whitespace for status-line splitting purposes.
pub open spec fn spec_is_ws(c: char) -> bool {
    c == ' ' || c == '\t' || c == '\r'
}

/// First index at or after `i` whose character fails `ws` (when `ws` is
/// true, the first non-whitespace index; else the first whitespace index),
/// or the end of `s`.
pub open spec fn spec_scan(s: Seq<char>, i: int, ws: bool) -> int
    decreases s.len() - i,
{
    if i < 0 || i >= s.len() {
        s.len() as int
    } else if spec_is_ws(s[i]) == ws {
        spec_scan(s, i + 1, ws)
    } else {
        i
    }
}

/// The second whitespace-separated token of `s`, as an index range.
pub open spec fn spec_second_token(s: Seq<char>) -> (int, int) {
    let first_start = spec_scan(s, 0, true);
    let first_end = spec_scan(s, first_start, false);
    let second_start = spec_scan(s, first_end, true);
    let second_end = spec_scan(s, second_start, false);
    (second_start, second_end)
}

/// The status code of an HTTP response: the second token of its first
/// line, parsed as a decimal number.
pub open spec fn spec_status_code(s: Seq<char>) -> Option<u16> {
    let line_end = if spec_find(s, '\n') < 0 {
        s.len() as int
    } else {
        spec_find(s, '\n')
    };
    let line = s.take(line_end);
    let bounds = spec_second_token(line);
    spec_parse_u16(line.subrange(bounds.0, bounds.1))
}

/// First index in `[from, to)` whose character's whitespace-ness differs
/// from `ws`, or `to`.
fn scan_bounded(chars: &Vec<char>, from: usize, to: usize, ws: bool) -> (r: usize)
    requires
        from <= to <= chars@.len(),
    ensures
        r == spec_scan(chars@.take(to as int), from as int, ws),
        from <= r <= to,
{
    let ghost line = chars@.take(to as int);
    let mut index: usize = from;
    while index < to
        invariant
            from <= index <= to <= chars@.len(),
            line == chars@.take(to as int),
            spec_scan(line, from as int, ws) == spec_scan(line, index as int, ws),
        decreases to - index,
    {
        let c = chars[index];
        let c_is_ws = c == ' ' || c == '\t' || c == '\r';
        proof {
            assert(line[index as int] == chars@[index as int]);
        }
        if c_is_ws != ws {
            return index;
        }
        index = index + 1;
    }
    to
}

/// Split a raw HTTP/1.1 response at its first blank line and read the
/// status code off its first line.
///
/// Succeeds exactly when a blank line is present and the status line's
/// second token is a decimal code below 400; the body after the blank line
/// is returned. A code of 400 or more fails with that code and body; a
/// response without a blank line or a readable code fails with code 0.
#[verifier::loop_isolation(false)]
pub fn split_http_response(response: &str) -> (r: Result<String, RemoteError>)
    ensures
        ({
            let s = response@;
            let cut = spec_blank_from(s, 0);
            if cut < 0 {
                r matches Err(e) && e matches RemoteError::Http(code, _) && code == 0u16
            } else {
                match spec_status_code(s.take(cut)) {
                    Some(code) => if code < 400 {
                        r matches Ok(body) && body@ == s.skip(cut + 4)
                    } else {
                        r matches Err(e) && e matches RemoteError::Http(
                            got,
                            body,
                        ) && got == code && body@ == s.skip(cut + 4)
                    },
                    None => r matches Err(e) && e matches RemoteError::Http(code, _) && code
                        == 0u16,
                }
            }
        }),
{
    let ghost s = response@;
    let chars = str_chars(response);
    let n = chars.len();

    let mut cut_found: Option<usize> = None;
    let mut index: usize = 0;
    while cut_found.is_none() && n >= 4 && index <= n - 4
        invariant
            n == chars@.len(),
            index <= n,
            cut_found is None ==> spec_blank_from(chars@, 0) == spec_blank_from(
                chars@,
                index as int,
            ),
            cut_found matches Some(i) ==> i == spec_blank_from(chars@, 0) && i + 4 <= n,
        decreases (n - index) + (if cut_found is None { 1int } else { 0int }),
    {
        if chars[index] == '\r' && chars[index + 1] == '\n' && chars[index + 2] == '\r'
            && chars[index + 3] == '\n' {
            cut_found = Some(index);
        } else {
            index = index + 1;
        }
    }

    let cut = match cut_found {
        Some(i) => i,
        None => {
            proof {
                assert(spec_blank_from(chars@, index as int) == -1);
            }
            return Err(RemoteError::Http(0, "invalid http response".to_owned()));
        },
    };

    let body = response.substring_char(cut + 4, n).to_owned();
    proof {
        assert(body@ =~= s.skip(cut + 4));
    }

    let ghost headers = s.take(cut as int);
    let mut newline_at: usize = cut;
    let mut stop = false;
    let mut scan: usize = 0;
    while !stop && scan < cut
        invariant
            cut <= n == chars@.len(),
            headers == s.take(cut as int),
            chars@ == s,
            scan <= cut,
            !stop ==> newline_at == cut && spec_find(headers, '\n') == spec_find_from(
                headers,
                '\n',
                scan as int,
            ),
            stop ==> newline_at < cut && newline_at == spec_find(headers, '\n'),
        decreases (cut - scan) + (if stop { 0int } else { 1int }),
    {
        proof {
            assert(headers[scan as int] == chars@[scan as int]);
        }
        if chars[scan] == '\n' {
            newline_at = scan;
            stop = true;
        } else {
            scan = scan + 1;
        }
    }
    proof {
        if !stop {
            assert(spec_find_from(headers, '\n', scan as int) == -1);
        }
    }
    let line_end: usize = newline_at;
    let ghost line = headers.take(line_end as int);
    proof {
        assert(line =~= chars@.take(line_end as int));
        if spec_find(headers, '\n') < 0 {
            assert(line_end == cut);
            assert(headers.take(headers.len() as int) =~= headers);
        }
    }

    let first_start = scan_bounded(&chars, 0, line_end, true);
    let first_end = scan_bounded(&chars, first_start, line_end, false);
    let second_start = scan_bounded(&chars, first_end, line_end, true);
    let second_end = scan_bounded(&chars, second_start, line_end, false);

    let code_opt = parse_u16_chars(&chars, second_start, second_end);
    proof {
        assert(chars@.subrange(second_start as int, second_end as int) =~= line.subrange(
            second_start as int,
            second_end as int,
        ));
    }

    match code_opt {
        None => Err(RemoteError::Http(0, "missing status code".to_owned())),
        Some(code) => if code >= 400 {
            Err(RemoteError::Http(code, body))
        } else {
            Ok(body)
        },
    }
}

/// The outcome handed back by the remote predictor, already decoded.
#[derive(Debug, Clone, Copy, PartialEq, Eq)]
pub struct RemoteResponse {
    pub wait_time_milli_minutes: Option<i64>,
    pub status: WaitTimeStatus,
    pub error_code: Option<WaitTimeErrorCode>,
}

/// Turn the remote call's outcome into the estimate the caller sees.
///
/// A decoded response is used as is (stamped with this tick's timestamp).
/// On any failure the configured local fallback computes the estimate —
/// the caller never sees a network error — and without a fallback the
/// degraded "no data" estimate is returned.
pub fn remote_estimate(
    outcome: &Option<RemoteResponse>,
    fallback: &Option<Model>,
    obstructions: &Vec<SensorObstruction>,
    now_ms: u64,
) -> (e: WaitTimeEstimate)
    requires
        (fallback matches Some(m) ==> m.wf()),
    ensures
        outcome matches Some(resp) ==> e == (WaitTimeEstimate {
            wait_time_milli_minutes: resp.wait_time_milli_minutes,
            timestamp: now_ms,
            status: resp.status,
            error_code: resp.error_code,
        }),
        outcome is None ==> (fallback matches Some(m) ==> m.wait_ens(obstructions@, now_ms, e)),
        outcome is None && fallback is None ==> e == no_data_estimate(now_ms),
{
    match outcome {
        Some(resp) => WaitTimeEstimate {
            wait_time_milli_minutes: resp.wait_time_milli_minutes,
            timestamp: now_ms,
            status: resp.status,
            error_code: resp.error_code,
        },
        None => match fallback {
            Some(m) => m.compute_wait_time(obstructions, now_ms),
            None => WaitTimeEstimate {
                wait_time_milli_minutes: None,
                timestamp: now_ms,
                status: WaitTimeStatus::Degraded,
                error_code: Some(WaitTimeErrorCode::NoData),
            },
        },
    }
}

} // verus!
