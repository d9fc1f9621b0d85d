//! What the engine tells of a sandbox, reduced to what the client is shown:
//! its state, its short id, the basis of its CPU share, its memory use, and
//! sizes in binary units.

use vstd::prelude::*;
use vstd::string::{StrSliceExecFns, StringExecFns, StringSliceAdditionalSpecFns};
use vstd::utf8::{encode_utf8, is_char_boundary};
use crate::sandbox::ContainerProbe;
use crate::text::{chars_of, decimal, decimal_string, is_digit, digits_value, split_whitespace, views, words};
use crate::timefmt::{rfc3339_nanos, spec_rfc3339_nanos};

verus! {

/// What an inspection of a container came to.
#[derive(Debug, Clone)]
pub enum InspectOutcome {
    Found(ContainerProbe),
    /// There is no such container.
    NotFound,
    /// The engine failed, for this reason.
    Failed(String),
}

/// What came of an operation on a container.
#[derive(Debug, Clone)]
pub enum EngineOutcome {
    Done,
    /// There is no such container.
    NotFound,
    /// The engine failed, for this reason.
    Failed(String),
}

/// A container's state as the client is shown it.
#[derive(Debug, Clone)]
pub struct ContainerStatus {
    /// One of `running`, `paused`, `stopped`, `missing` and `error`.
    pub status: String,
    /// The first twelve bytes of the container's id.
    pub id_short: Option<String>,
    pub running: bool,
}

/// The length of a short id, in bytes.
pub const SHORT_ID_LEN: usize = 12;

/// The text of a short id in UTF-8: the first twelve bytes of the id's, or
/// all of them where the id is shorter or cannot be cut there.
pub open spec fn short_id_bytes(id: Seq<char>) -> Seq<u8> {
    let b = encode_utf8(id);
    if b.len() as usize >= SHORT_ID_LEN && is_char_boundary(b, SHORT_ID_LEN as int) {
        b.subrange(0, SHORT_ID_LEN as int)
    } else {
        b
    }
}

/// The short form of a container's id.
pub fn short_id(id: &str) -> (r: String)
    ensures
        encode_utf8(r@) == short_id_bytes(id@),
{
    if id.len() >= SHORT_ID_LEN && id.is_char_boundary(SHORT_ID_LEN) {
        let (head, _) = id.split_at(SHORT_ID_LEN);
        let r = String::from_str(head);
        proof {
            assert(id.spec_bytes() == encode_utf8(id@));
            assert(head.spec_bytes() == encode_utf8(head@));
            assert(encode_utf8(r@) == encode_utf8(id@).subrange(0, SHORT_ID_LEN as int));
        }
        r
    } else {
        String::from_str(id)
    }
}

/// The word for the state of a container that was found: `paused` where it
/// is paused, else `running` where it runs, else `stopped`.
pub open spec fn status_word(probe: ContainerProbe) -> Seq<char> {
    if probe.paused == Some(true) {
        "paused"@
    } else if probe.running == Some(true) {
        "running"@
    } else {
        "stopped"@
    }
}

/// The words that a container's state is shown with.
pub open spec fn is_status_word(w: Seq<char>) -> bool {
    w == "running"@ || w == "paused"@ || w == "stopped"@ || w == "missing"@ || w == "error"@
}

/// What the client is shown of a container after an inspection.
pub fn workspace_container_status_with_running(inspect: &InspectOutcome) -> (r: ContainerStatus)
    ensures
        is_status_word(r.status@),
        match *inspect {
            InspectOutcome::Found(probe) => {
                &&& r.status@ == status_word(probe)
                &&& r.running == (probe.running == Some(true))
                &&& match probe.id {
                    Some(id) => r.id_short matches Some(s) && encode_utf8(s@) == short_id_bytes(
                        id@,
                    ),
                    None => r.id_short is None,
                }
            },
            InspectOutcome::NotFound => r.status@ == "missing"@ && r.id_short is None
                && !r.running,
            InspectOutcome::Failed(_) => r.status@ == "error"@ && r.id_short is None && !r.running,
        },
{
    match inspect {
        InspectOutcome::Found(probe) => {
            let running = match probe.running {
                Some(b) => b,
                None => false,
            };
            let paused = match probe.paused {
                Some(b) => b,
                None => false,
            };
            let status = if paused {
                String::from_str("paused")
            } else if running {
                String::from_str("running")
            } else {
                String::from_str("stopped")
            };
            let id_short = match &probe.id {
                Some(id) => Some(short_id(id.as_str())),
                None => None,
            };
            ContainerStatus { status, id_short, running }
        },
        InspectOutcome::NotFound => ContainerStatus {
            status: String::from_str("missing"),
            id_short: None,
            running: false,
        },
        InspectOutcome::Failed(_) => ContainerStatus {
            status: String::from_str("error"),
            id_short: None,
            running: false,
        },
    }
}

/// What the client is shown of a container's state and id.
pub fn workspace_container_status(inspect: &InspectOutcome) -> (r: (String, Option<String>))
    ensures
        match *inspect {
            InspectOutcome::Found(probe) => r.0@ == status_word(probe) && (match probe.id {
                Some(id) => r.1 matches Some(s) && encode_utf8(s@) == short_id_bytes(id@),
                None => r.1 is None,
            }),
            InspectOutcome::NotFound => r.0@ == "missing"@ && r.1 is None,
            InspectOutcome::Failed(_) => r.0@ == "error"@ && r.1 is None,
        },
{
    let s = workspace_container_status_with_running(inspect);
    (s.status, s.id_short)
}

/// The CPU time that a container has used, as the engine counts it.
#[derive(Debug, Clone, Copy, PartialEq, Eq, Structural)]
pub struct CpuUsage {
    pub total_usage: Option<u64>,
    /// The number of CPUs that the engine lists usage for.
    pub percpu_count: Option<u64>,
}

/// One reading of a container's CPU counters.
#[derive(Debug, Clone, Copy, PartialEq, Eq, Structural)]
pub struct CpuSample {
    pub usage: Option<CpuUsage>,
    pub system_cpu_usage: Option<u64>,
    pub online_cpus: Option<u32>,
}

/// The engine's statistics of a container: the latest reading, the one
/// before it, the times of the two, and the memory counters.
#[derive(Debug, Clone)]
pub struct StatsSample {
    pub cpu: Option<CpuSample>,
    pub precpu: Option<CpuSample>,
    pub read: Option<String>,
    pub preread: Option<String>,
    pub memory_usage: Option<u64>,
    pub memory_limit: Option<u64>,
    pub has_memory: bool,
}

/// What a container's CPU share is computed from.
#[derive(Debug, Clone, Copy, PartialEq, Eq, Structural)]
pub enum CpuBasis {
    /// The share is zero.
    Zero,
    /// The share is the container's part of the whole system's CPU time
    /// between the two readings, times the number of CPUs, as a
    /// percentage.
    OfSystem { cpu_delta: u64, system_delta: u64, online_cpus: u64 },
    /// The share is the container's CPU time per nanosecond elapsed
    /// between the two readings, as a percentage.
    OfElapsed { cpu_delta: u64, elapsed_ns: u64 },
}

/// `a - b`, or zero where `b` is the larger.
pub open spec fn saturating_diff(a: u64, b: u64) -> u64 {
    if a >= b {
        (a - b) as u64
    } else {
        0
    }
}

/// The value of an optional counter: zero where it is missing.
pub open spec fn counter(c: Option<u64>) -> u64 {
    match c {
        Some(v) => v,
        None => 0,
    }
}

/// The number of CPUs that a reading lists usage for, at least one.
pub open spec fn listed_cpus(usage: CpuUsage) -> u64 {
    match usage.percpu_count {
        Some(c) => if c > 0 {
            c
        } else {
            1
        },
        None => 1,
    }
}

/// The number of CPUs of a reading: the number the engine gives, if it is
/// positive; else the number of CPUs it lists usage for, at least one.
pub open spec fn cpu_count(sample: CpuSample, usage: CpuUsage) -> u64 {
    match sample.online_cpus {
        Some(n) => if n > 0 {
            n as u64
        } else {
            listed_cpus(usage)
        },
        None => listed_cpus(usage),
    }
}

/// The nanoseconds between the two readings, where both times are given,
/// well formed, and in order.
pub open spec fn elapsed_between(read: Option<Seq<char>>, preread: Option<Seq<char>>) -> Option<
    u64,
> {
    match (read, preread) {
        (Some(r), Some(p)) => match (spec_rfc3339_nanos(r), spec_rfc3339_nanos(p)) {
            (Some(a), Some(b)) => if a > b && a - b <= u64::MAX {
                Some((a - b) as u64)
            } else {
                None
            },
            _ => None,
        },
        _ => None,
    }
}

/// The basis of the CPU share, from the two readings and the elapsed time.
pub open spec fn cpu_basis(
    cpu: CpuSample,
    usage: CpuUsage,
    precpu: CpuSample,
    preusage: CpuUsage,
    elapsed: Option<u64>,
) -> CpuBasis {
    let cpu_delta = saturating_diff(counter(usage.total_usage), counter(preusage.total_usage));
    let system_delta = saturating_diff(
        counter(cpu.system_cpu_usage),
        counter(precpu.system_cpu_usage),
    );
    if cpu_delta == 0 {
        CpuBasis::Zero
    } else if system_delta > 0 {
        CpuBasis::OfSystem { cpu_delta, system_delta, online_cpus: cpu_count(cpu, usage) }
    } else {
        match elapsed {
            Some(ns) => CpuBasis::OfElapsed { cpu_delta, elapsed_ns: ns },
            None => CpuBasis::Zero,
        }
    }
}

/// The memory in use and its limit, where both are given and the limit is
/// positive.
pub open spec fn memory_pair(usage: Option<u64>, limit: Option<u64>) -> Option<(u64, u64)> {
    match (usage, limit) {
        (Some(u), Some(l)) => if l > 0 {
            Some((u, l))
        } else {
            None
        },
        _ => None,
    }
}

fn diff(a: u64, b: u64) -> (r: u64)
    ensures
        r == saturating_diff(a, b),
{
    if a >= b {
        a - b
    } else {
        0
    }
}

fn value(c: Option<u64>) -> (r: u64)
    ensures
        r == counter(c),
{
    match c {
        Some(v) => v,
        None => 0,
    }
}

fn opt_str_view(o: &Option<String>) -> (r: Option<&str>)
    ensures
        match r {
            Some(s) => *o matches Some(t) && t@ == s@,
            None => *o is None,
        },
{
    match o {
        Some(s) => Some(s.as_str()),
        None => None,
    }
}

/// The nanoseconds between two readings.
pub fn elapsed_nanos(read: Option<&str>, preread: Option<&str>) -> (r: Option<u64>)
    ensures
        r == elapsed_between(
            match read {
                Some(s) => Some(s@),
                None => None,
            },
            match preread {
                Some(s) => Some(s@),
                None => None,
            },
        ),
{
    match (read, preread) {
        (Some(r), Some(p)) => match (rfc3339_nanos(r), rfc3339_nanos(p)) {
            (Some(a), Some(b)) => {
                if a > b {
                    let d: i128 = a as i128 - b as i128;
                    Some(d as u64)
                } else {
                    None
                }
            },
            _ => None,
        },
        _ => None,
    }
}

/// The memory counters that are fit to be shown.
pub fn memory_use(usage: Option<u64>, limit: Option<u64>) -> (r: Option<(u64, u64)>)
    ensures
        r == memory_pair(usage, limit),
{
    match (usage, limit) {
        (Some(u), Some(l)) => if l > 0 {
            Some((u, l))
        } else {
            None
        },
        _ => None,
    }
}

fn count_cpus(sample: &CpuSample, usage: &CpuUsage) -> (r: u64)
    ensures
        r == cpu_count(*sample, *usage),
{
    match sample.online_cpus {
        Some(n) => {
            if n > 0 {
                return n as u64;
            }
        },
        None => {},
    }
    match usage.percpu_count {
        Some(c) => if c > 0 {
            c
        } else {
            1
        },
        None => 1,
    }
}

/// What a container's statistics come to: the basis of its CPU share and
/// its memory use. Nothing where a reading or its usage is missing.
pub fn container_stats_line(sample: &StatsSample) -> (r: Option<(CpuBasis, Option<(u64, u64)>)>)
    ensures
        match (sample.cpu, sample.precpu) {
            (Some(cpu), Some(precpu)) => match (cpu.usage, precpu.usage) {
                (Some(usage), Some(preusage)) => r == Some(
                    (
                        cpu_basis(
                            cpu,
                            usage,
                            precpu,
                            preusage,
                            elapsed_between(
                                crate::text::opt_view(sample.read),
                                crate::text::opt_view(sample.preread),
                            ),
                        ),
                        if sample.has_memory {
                            memory_pair(sample.memory_usage, sample.memory_limit)
                        } else {
                            None
                        },
                    ),
                ),
                _ => r is None,
            },
            _ => r is None,
        },
{
    let cpu = match sample.cpu {
        Some(c) => c,
        None => {
            return None;
        },
    };
    let precpu = match sample.precpu {
        Some(c) => c,
        None => {
            return None;
        },
    };
    let usage = match cpu.usage {
        Some(u) => u,
        None => {
            return None;
        },
    };
    let preusage = match precpu.usage {
        Some(u) => u,
        None => {
            return None;
        },
    };
    let cpu_delta = diff(value(usage.total_usage), value(preusage.total_usage));
    let system_delta = diff(value(cpu.system_cpu_usage), value(precpu.system_cpu_usage));
    let basis = if cpu_delta == 0 {
        CpuBasis::Zero
    } else if system_delta > 0 {
        CpuBasis::OfSystem { cpu_delta, system_delta, online_cpus: count_cpus(&cpu, &usage) }
    } else {
        match elapsed_nanos(opt_str_view(&sample.read), opt_str_view(&sample.preread)) {
            Some(ns) => CpuBasis::OfElapsed { cpu_delta, elapsed_ns: ns },
            None => CpuBasis::Zero,
        }
    };
    let mem = if sample.has_memory {
        memory_use(sample.memory_usage, sample.memory_limit)
    } else {
        None
    };
    Some((basis, mem))
}

/// The basis of the CPU share from a single quick reading, which may lack
/// the earlier counters: none unless both totals are positive, the total
/// has grown, and the system's time has grown.
pub open spec fn quick_cpu_basis(sample: StatsSample) -> Option<CpuBasis> {
    match (sample.cpu, sample.precpu) {
        (Some(cpu), Some(precpu)) => match (cpu.usage, precpu.usage) {
            (Some(usage), Some(preusage)) => {
                let total = counter(usage.total_usage);
                let before = counter(preusage.total_usage);
                let system_delta = saturating_diff(
                    counter(cpu.system_cpu_usage),
                    counter(precpu.system_cpu_usage),
                );
                if total == 0 || before == 0 || total <= before || system_delta == 0 {
                    None
                } else {
                    Some(
                        CpuBasis::OfSystem {
                            cpu_delta: (total - before) as u64,
                            system_delta,
                            online_cpus: cpu_count(cpu, usage),
                        },
                    )
                }
            },
            _ => None,
        },
        _ => None,
    }
}

/// What a container's statistics come to when they were read in one quick
/// reading: the memory use is as ever; the CPU share may be unknown.
pub fn container_stats_line_fast(sample: &StatsSample) -> (r: (Option<CpuBasis>, Option<(u64, u64)>))
    ensures
        r.0 == quick_cpu_basis(*sample),
        r.1 == (if sample.has_memory {
            memory_pair(sample.memory_usage, sample.memory_limit)
        } else {
            None
        }),
{
    let mem = if sample.has_memory {
        memory_use(sample.memory_usage, sample.memory_limit)
    } else {
        None
    };
    let cpu = match (sample.cpu, sample.precpu) {
        (Some(cpu), Some(precpu)) => match (cpu.usage, precpu.usage) {
            (Some(usage), Some(preusage)) => {
                let total = value(usage.total_usage);
                let before = value(preusage.total_usage);
                let system_delta = diff(
                    value(cpu.system_cpu_usage),
                    value(precpu.system_cpu_usage),
                );
                if total == 0 || before == 0 || total <= before || system_delta == 0 {
                    None
                } else {
                    Some(
                        CpuBasis::OfSystem {
                            cpu_delta: total - before,
                            system_delta,
                            online_cpus: count_cpus(&cpu, &usage),
                        },
                    )
                }
            },
            _ => None,
        },
        _ => None,
    };
    (cpu, mem)
}

/// The digits of an unsigned numeral: what follows its `+`, if it has one.
pub open spec fn unsigned_body(s: Seq<char>) -> Seq<char> {
    if s.len() > 0 && s[0] == '+' {
        s.skip(1)
    } else {
        s
    }
}

/// The number that a text of digits spells, as `str::parse` reads it for an
/// unsigned 64-bit number: an optional `+`, then one or more digits.
pub open spec fn parsed_u64(s: Seq<char>) -> Option<u64> {
    let body = unsigned_body(s);
    if body.len() == 0 || exists|i: int| 0 <= i < body.len() && !is_digit(#[trigger] body[i]) {
        None
    } else if digits_value(body) <= u64::MAX {
        Some(digits_value(body) as u64)
    } else {
        None
    }
}

/// Reads an unsigned number.
pub fn parse_u64(text: &str) -> (r: Option<u64>)
    ensures
        r == parsed_u64(text@),
{
    let v = chars_of(text);
    if v.len() == 0 {
        return None;
    }
    let start: usize = if v[0] == '+' {
        1
    } else {
        0
    };
    let ghost body = v@.skip(start as int);
    let ghost numeral = unsigned_body(text@);
    proof {
        if start == 0 {
            assert(body =~= v@);
        }
        assert(body == numeral);
    }
    if start == v.len() {
        return None;
    }
    let mut acc: u128 = 0;
    let mut i: usize = start;
    assert(body.take(0) =~= Seq::<char>::empty());
    while i < v.len()
        invariant
            start <= i <= v.len(),
            start < v.len(),
            v@ == text@,
            body == v@.skip(start as int),
            body == numeral,
            numeral == unsigned_body(text@),
            forall|j: int| 0 <= j < i - start ==> is_digit(#[trigger] body[j]),
            acc == digits_value(body.take(i - start)),
            acc <= u64::MAX,
        decreases v.len() - i,
    {
        let c = v[i];
        assert(body[i - start] == c);
        if !('0' <= c && c <= '9') {
            assert(!is_digit(body[i - start]));
            return None;
        }
        proof {
            let t = body.take(i - start + 1);
            assert(t.drop_last() == body.take(i - start));
            assert(t.last() == c);
        }
        acc = acc * 10 + (c as u32 - '0' as u32) as u128;
        if acc > u64::MAX as u128 {
            proof {
                if !(exists|j: int| 0 <= j < body.len() && !is_digit(#[trigger] body[j])) {
                    lemma_digits_monotone(body, i - start + 1);
                }
            }
            return None;
        }
        i += 1;
    }
    assert(body.take(body.len() as int) == body);
    Some(acc as u64)
}

proof fn lemma_digits_monotone(s: Seq<char>, k: int)
    requires
        0 <= k <= s.len(),
        forall|j: int| k <= j < s.len() ==> is_digit(#[trigger] s[j]),
    ensures
        digits_value(s.take(k)) <= digits_value(s),
    decreases s.len() - k,
{
    if k == s.len() {
        assert(s.take(k) == s);
    } else {
        lemma_digits_monotone(s.drop_last(), k);
        assert(s.drop_last().take(k) == s.take(k));
        assert(is_digit(s[s.len() - 1]));
    }
}

/// The size that a disk-usage report gives: the number that is its first
/// word, where the report was made without failure.
pub open spec fn reported_size(success: bool, stdout: Seq<char>) -> Option<u64> {
    if success && words(stdout).len() > 0 {
        parsed_u64(words(stdout)[0])
    } else {
        None
    }
}

/// The size of a workspace on disk, from the report of the tool that
/// measures it.
pub fn du_bytes(success: bool, stdout: &str) -> (r: Option<u64>)
    ensures
        r == reported_size(success, stdout@),
{
    if !success {
        return None;
    }
    let w = split_whitespace(stdout);
    if w.len() == 0 {
        return None;
    }
    assert(views(w@)[0] == w@[0]@);
    parse_u64(w[0].as_str())
}

/// A quotient rounded to the nearest whole number, a tie going to the even
/// one.
pub open spec fn round_half_even(num: nat, den: nat) -> nat {
    let q = num / den;
    let r = num % den;
    if 2 * r < den {
        q
    } else if 2 * r > den {
        q + 1
    } else {
        q + q % 2
    }
}

/// How many low bits a number loses when it is held with 53 significant
/// bits.
pub open spec fn lost_bits(n: nat) -> nat
    decreases n,
{
    if n < 0x20_0000_0000_0000 {
        0
    } else {
        1 + lost_bits(n / 2)
    }
}

/// Two to the power `k`.
pub open spec fn two_pow(k: nat) -> nat
    decreases k,
{
    if k == 0 {
        1
    } else {
        2 * two_pow((k - 1) as nat)
    }
}

/// The number nearest to `n` that has no more than 53 significant bits, a
/// tie going to the one whose last kept bit is zero.
pub open spec fn with_53_bits(n: nat) -> nat {
    let unit = two_pow(lost_bits(n));
    round_half_even(n, unit) * unit
}

pub const KIB: u64 = 0x400;

pub const MIB: u64 = 0x10_0000;

pub const GIB: u64 = 0x4000_0000;

pub const TIB: u64 = 0x100_0000_0000;

/// A number of tenths written with one decimal.
pub open spec fn one_decimal(tenths: nat) -> Seq<char> {
    decimal(tenths / 10) + "."@ + decimal(tenths % 10)
}

/// A size in bytes as the client is shown it: in bytes below 1024, else in
/// the largest binary unit that it reaches, up to TiB, with one decimal,
/// rounded to the nearest tenth with ties to the even one. A size of 2^53
/// bytes or more is first held with 53 significant bits.
pub open spec fn bytes_text(bytes: u64) -> Seq<char> {
    let n = bytes as nat;
    if n < KIB {
        decimal(n) + " B"@
    } else if n < MIB {
        one_decimal(round_half_even(n * 10, KIB as nat)) + " KiB"@
    } else if n < GIB {
        one_decimal(round_half_even(n * 10, MIB as nat)) + " MiB"@
    } else if n < TIB {
        one_decimal(round_half_even(n * 10, GIB as nat)) + " GiB"@
    } else {
        one_decimal(round_half_even(with_53_bits(n) * 10, TIB as nat)) + " TiB"@
    }
}

fn rounded_quotient(num: u128, den: u128) -> (r: u128)
    requires
        0 < den <= 0xffff_ffff_ffff_ffff,
        num <= 0xffff_ffff_ffff_ffff_ffff,
    ensures
        r == round_half_even(num as nat, den as nat),
{
    let q = num / den;
    let r = num % den;
    if 2 * r < den {
        q
    } else if 2 * r > den {
        q + 1
    } else {
        q + q % 2
    }
}

fn held_with_53_bits(n: u64) -> (r: u128)
    ensures
        r == with_53_bits(n as nat),
        r <= 0x1_0000_0000_0000_0000,
{
    let mut m: u64 = n;
    let mut unit: u128 = 1;
    let mut k: u32 = 0;
    while m >= 0x20_0000_0000_0000
        invariant
            k <= 11,
            unit == two_pow(k as nat),
            unit <= 0x800,
            m as nat * unit <= n,
            (m as nat) * unit + unit > n,
            lost_bits(n as nat) == k + lost_bits(m as nat),
            m == (n as nat) / (unit as nat),
        decreases m,
    {
        proof {
            assert(k < 11) by {
                if k == 11 {
                    assert(unit == 0x800) by {
                        reveal_with_fuel(two_pow, 12);
                    }
                    assert(m as nat * 0x800 <= n);
                }
            }
            assert((m as nat / 2) == (n as nat) / ((unit * 2) as nat)) by (nonlinear_arith)
                requires
                    m == (n as nat) / (unit as nat),
                    unit > 0,
            ;
            assert((m as nat / 2) * (unit * 2) <= n && (m as nat / 2) * (unit * 2) + unit * 2
                > n) by (nonlinear_arith)
                requires
                    m as nat * unit <= n,
                    (m as nat) * unit + unit > n,
                    unit > 0,
            ;
            assert(unit * 2 <= 0x800) by {
                reveal_with_fuel(two_pow, 12);
            }
        }
        m = m / 2;
        unit = unit * 2;
        k = k + 1;
    }
    proof {
        assert(lost_bits(m as nat) == 0);
    }
    let q = rounded_quotient(n as u128, unit);
    proof {
        assert(q <= m + 1) by (nonlinear_arith)
            requires
                q == round_half_even(n as nat, unit as nat),
                m == (n as nat) / (unit as nat),
                unit > 0,
        ;
        assert(q * unit <= 0x1_0000_0000_0000_0000) by (nonlinear_arith)
            requires
                q <= m + 1,
                m as nat * unit <= n,
                n <= 0xffff_ffff_ffff_ffff,
                unit <= 0x800,
                unit >= 1,
                m < 0x20_0000_0000_0000,
        ;
    }
    q * unit
}

fn one_decimal_text(tenths: u128, unit: &str) -> (r: String)
    requires
        tenths <= 0xffff_ffff_ffff_ffff,
    ensures
        r@ == one_decimal(tenths as nat) + unit@,
{
    let mut out = decimal_string((tenths / 10) as u64);
    out.append(".");
    let frac = decimal_string((tenths % 10) as u64);
    out.append(frac.as_str());
    out.append(unit);
    out
}

/// A size in bytes as the client is shown it.
pub fn format_bytes(bytes: u64) -> (r: String)
    ensures
        r@ == bytes_text(bytes),
{
    if bytes < KIB {
        let mut out = decimal_string(bytes);
        out.append(" B");
        out
    } else if bytes < MIB {
        one_decimal_text(rounded_quotient(bytes as u128 * 10, KIB as u128), " KiB")
    } else if bytes < GIB {
        one_decimal_text(rounded_quotient(bytes as u128 * 10, MIB as u128), " MiB")
    } else if bytes < TIB {
        one_decimal_text(rounded_quotient(bytes as u128 * 10, GIB as u128), " GiB")
    } else {
        let held = held_with_53_bits(bytes);
        let tenths = rounded_quotient(held * 10, TIB as u128);
        proof {
            assert(tenths <= 0xffff_ffff_ffff_ffff) by (nonlinear_arith)
                requires
                    tenths == round_half_even((held * 10) as nat, TIB as nat),
                    held <= 0x1_0000_0000_0000_0000,
                    TIB == 0x100_0000_0000,
            ;
        }
        one_decimal_text(tenths, " TiB")
    }
}

} // verus!
