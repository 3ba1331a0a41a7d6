use crate::layout::{
    fits, DEFAULT_CAPTURE_CAPACITY, DEFAULT_MAX_ITERATIONS, DHCP_FIXED_LEN, HOSTNAME_OPTION, OPTION_END,
    UDP_PAYLOAD_OFFSET,
};
use crate::view::BoundedView;
use vstd::prelude::*;

verus! {

/// What the option scan looks for and how far it may go.
///
/// `target_option` is the code whose value is captured (the host name is
/// code 12); `capture_capacity` is the size of the capture buffer; and
/// `max_iterations` bounds the number of options examined, a safety limit
/// on running time rather than a rule of the protocol.
#[derive(Clone, Copy, Debug, PartialEq, Eq, Structural)]
pub struct ScanConfig {
    pub target_option: u8,
    pub capture_capacity: u8,
    pub max_iterations: usize,
}

/// Why the option scan stopped.
#[derive(Clone, Copy, Debug, PartialEq, Eq, Structural)]
pub enum ScanEnd {
    /// The next option would start at or past the declared payload length.
    RegionExhausted,
    /// The bound on iterations was reached.
    IterationCap,
    /// A read would have run past the end of the frame.
    OutOfBounds,
    /// The end-of-options code was met.
    Sentinel,
    /// The target option was found and its value captured.
    Captured,
}

/// The value of the target option, truncated or zero-filled to the
/// capture capacity.
#[derive(Clone, Debug)]
pub struct CapturedOption {
    pub code: u8,
    pub declared_length: u8,
    pub value: Vec<u8>,
}

/// The outcome of an option scan. `offset` is where the scan stopped,
/// counted from the start of the DHCP message, and `iterations` the number
/// of options that it stepped over.
#[derive(Clone, Debug)]
pub struct OptionScan {
    pub end: ScanEnd,
    pub offset: usize,
    pub iterations: usize,
    pub captured: Option<CapturedOption>,
}

impl ScanConfig {
    /// A configuration with every setting given.
    pub fn new(target_option: u8, capture_capacity: u8, max_iterations: usize) -> (r: ScanConfig)
        ensures
            r.target_option == target_option,
            r.capture_capacity == capture_capacity,
            r.max_iterations == max_iterations,
    {
        ScanConfig { target_option, capture_capacity, max_iterations }
    }

    /// Looks for `target_option` with the default capture capacity and
    /// bound on iterations.
    pub fn for_option(target_option: u8) -> (r: ScanConfig)
        ensures
            r.target_option == target_option,
            r.capture_capacity == DEFAULT_CAPTURE_CAPACITY,
            r.max_iterations == DEFAULT_MAX_ITERATIONS,
    {
        ScanConfig::new(target_option, DEFAULT_CAPTURE_CAPACITY, DEFAULT_MAX_ITERATIONS)
    }

    /// Looks for the host name option with the defaults.
    pub fn hostname() -> (r: ScanConfig)
        ensures
            r.target_option == HOSTNAME_OPTION,
            r.capture_capacity == DEFAULT_CAPTURE_CAPACITY,
            r.max_iterations == DEFAULT_MAX_ITERATIONS,
    {
        ScanConfig::for_option(HOSTNAME_OPTION)
    }
}

pub open spec fn min(a: int, b: int) -> int {
    if a <= b {
        a
    } else {
        b
    }
}

/// The scan of the option region from `off` (relative to the DHCP message,
/// which starts at `UDP_PAYLOAD_OFFSET` in frame `f`) after `it` options
/// were stepped over: why it stops, where, and after how many options.
pub open spec fn scan_from(f: Seq<u8>, plen: int, cfg: ScanConfig, off: int, it: int) -> (
    ScanEnd,
    int,
    int,
)
    decreases cfg.max_iterations - it,
{
    let at = UDP_PAYLOAD_OFFSET + off;
    if off >= plen {
        (ScanEnd::RegionExhausted, off, it)
    } else if it >= cfg.max_iterations {
        (ScanEnd::IterationCap, off, it)
    } else if !fits(f.len() as int, at, 1) {
        (ScanEnd::OutOfBounds, off, it)
    } else if f[at] == OPTION_END {
        (ScanEnd::Sentinel, off, it)
    } else if !fits(f.len() as int, at + 1, 1) {
        (ScanEnd::OutOfBounds, off, it)
    } else if f[at] == cfg.target_option {
        if fits(f.len() as int, at + 2, min(f[at + 1] as int, cfg.capture_capacity as int)) {
            (ScanEnd::Captured, off, it)
        } else {
            (ScanEnd::OutOfBounds, off, it)
        }
    } else {
        scan_from(f, plen, cfg, off + 2 + f[at + 1], it + 1)
    }
}

/// The scan of a whole option region, which starts right after the fixed
/// DHCP header.
pub open spec fn scan_region(f: Seq<u8>, plen: int, cfg: ScanConfig) -> (ScanEnd, int, int) {
    scan_from(f, plen, cfg, DHCP_FIXED_LEN as int, 0)
}

/// `cap` bytes: the first `min(len, cap)` bytes of `f` from `at`, then zeros.
pub open spec fn capture_of(f: Seq<u8>, at: int, len: int, cap: int) -> Seq<u8> {
    let n = min(len, cap);
    f.subrange(at, at + n) + Seq::new((cap - n) as nat, |k: int| 0u8)
}

/// `c` is the capture of the option that starts at `off` in the DHCP
/// message of frame `f`.
pub open spec fn captured_at(c: CapturedOption, f: Seq<u8>, off: int, cfg: ScanConfig) -> bool {
    let at = UDP_PAYLOAD_OFFSET + off;
    &&& c.code == cfg.target_option
    &&& c.declared_length == f[at + 1]
    &&& c.value@ == capture_of(f, at + 2, f[at + 1] as int, cfg.capture_capacity as int)
}

/// `s` is the scan of the option region of frame `f` whose declared
/// payload length is `plen`.
pub open spec fn scan_matches(s: OptionScan, f: Seq<u8>, plen: int, cfg: ScanConfig) -> bool {
    &&& (s.end, s.offset as int, s.iterations as int) == scan_region(f, plen, cfg)
    &&& s.captured is Some <==> s.end == ScanEnd::Captured
    &&& s.captured is Some ==> captured_at(s.captured->0, f, s.offset as int, cfg)
}

/// Appends zeros to `v` up to `cap` bytes.
fn zero_fill(v: Vec<u8>, cap: usize) -> (r: Vec<u8>)
    requires
        v@.len() <= cap,
    ensures
        r@ == v@ + Seq::new((cap - v@.len()) as nat, |k: int| 0u8),
{
    let mut r = v;
    let ghost start = r@;
    while r.len() < cap
        invariant
            start.len() <= r@.len() <= cap,
            r@ == start + Seq::new((r@.len() - start.len()) as nat, |k: int| 0u8),
        decreases cap - r@.len(),
    {
        r.push(0u8);
        assert(r@ =~= start + Seq::new((r@.len() - start.len()) as nat, |k: int| 0u8));
    }
    assert(r@ =~= start + Seq::new((cap - start.len()) as nat, |k: int| 0u8));
    r
}

/// Walks the DHCP options of the frame behind `view`, which follow the
/// fixed DHCP header, until the target option, the end-of-options code,
/// the end of the declared payload (`payload_length` bytes of DHCP
/// message), the bound on iterations, or a read past the frame.
/// Only the first occurrence of the target option is captured.
pub fn scan_options(view: &BoundedView, payload_length: u16, cfg: &ScanConfig) -> (r: OptionScan)
    ensures
        scan_matches(r, view@, payload_length as int, *cfg),
{
    let plen = payload_length as usize;
    let mut offset: usize = DHCP_FIXED_LEN;
    let mut iterations: usize = 0;
    loop
        invariant
            offset <= 0x1_0000 + 0x101,
            iterations <= cfg.max_iterations,
            plen == payload_length,
            scan_from(view@, plen as int, *cfg, offset as int, iterations as int) == scan_region(
                view@,
                plen as int,
                *cfg,
            ),
        decreases cfg.max_iterations - iterations,
    {
        if offset >= plen {
            return OptionScan { end: ScanEnd::RegionExhausted, offset, iterations, captured: None };
        }
        if iterations >= cfg.max_iterations {
            return OptionScan { end: ScanEnd::IterationCap, offset, iterations, captured: None };
        }
        let at = UDP_PAYLOAD_OFFSET + offset;
        let code = match view.read_u8(at) {
            Some(c) => c,
            None => {
                return OptionScan { end: ScanEnd::OutOfBounds, offset, iterations, captured: None }
            },
        };
        if code == OPTION_END {
            return OptionScan { end: ScanEnd::Sentinel, offset, iterations, captured: None };
        }
        let length = match view.read_u8(at + 1) {
            Some(l) => l,
            None => {
                return OptionScan { end: ScanEnd::OutOfBounds, offset, iterations, captured: None }
            },
        };
        if code == cfg.target_option {
            let n: usize = if length <= cfg.capture_capacity {
                length as usize
            } else {
                cfg.capture_capacity as usize
            };
            match view.read_bytes(at + 2, n) {
                Some(bytes) => {
                    let value = zero_fill(bytes, cfg.capture_capacity as usize);
                    let captured = CapturedOption { code, declared_length: length, value };
                    return OptionScan {
                        end: ScanEnd::Captured,
                        offset,
                        iterations,
                        captured: Some(captured),
                    };
                },
                None => {
                    return OptionScan {
                        end: ScanEnd::OutOfBounds,
                        offset,
                        iterations,
                        captured: None,
                    };
                },
            }
        }
        offset = offset + 2 + length as usize;
        iterations = iterations + 1;
    }
}

} // verus!
