//! Engine configuration, backend bring-up order and worker thread naming.
use vstd::prelude::*;

use crate::types::{BackendType, ScalixError};

verus! {

/// Longest thread-name prefix in bytes: with the `/scx-hw` (7 bytes) and `/scx-w<id>` suffixes
/// names stay within Linux's 15-byte limit.
pub const MAX_THREAD_PREFIX_LEN: usize = 7;
/// Queue capacity of a worker pool by default.
pub const DEFAULT_WORKER_CAPACITY: usize = 1024;
pub const DEFAULT_WORKER_QUEUE_CAP: usize = DEFAULT_WORKER_CAPACITY;
/// Callback workers assumed when the machine's parallelism is unknown.
pub const DEFAULT_PARALLELISM: usize = 4;
pub const DEFAULT_NUM_HW_THREADS: usize = 1;
pub const MIN_CALLBACK_WORKERS: usize = 2;

/// Configuration of an engine's worker pools.
#[derive(Debug, Clone)]
pub struct EngineConfig {
    pub num_hw_threads: usize,
    pub num_callback_workers: usize,
    pub worker_queue_capacity: usize,
    pub thread_prefix: Option<String>,
}

impl EngineConfig {
    /// Default configuration for a machine with `available_parallelism` hardware threads
    /// (`None` when unknown): one hardware thread, one callback worker per hardware thread but
    /// at least two, queues of 1024 jobs, and the process id as thread prefix.
    pub fn new(available_parallelism: Option<usize>) -> (r: Self)
        ensures
            r.num_hw_threads == DEFAULT_NUM_HW_THREADS,
            r.num_callback_workers == match available_parallelism {
                Some(n) => if n >= MIN_CALLBACK_WORKERS { n } else { MIN_CALLBACK_WORKERS },
                None => DEFAULT_PARALLELISM,
            },
            r.worker_queue_capacity == DEFAULT_WORKER_QUEUE_CAP,
            r.thread_prefix is None,
    {
        let cpus = match available_parallelism {
            Some(n) => n,
            None => DEFAULT_PARALLELISM,
        };
        EngineConfig {
            num_hw_threads: DEFAULT_NUM_HW_THREADS,
            num_callback_workers: if cpus >= MIN_CALLBACK_WORKERS { cpus } else { MIN_CALLBACK_WORKERS },
            worker_queue_capacity: DEFAULT_WORKER_QUEUE_CAP,
            thread_prefix: None,
        }
    }

    pub fn with_thread_prefix(self, prefix: &str) -> (r: Self)
        ensures
            r.num_hw_threads == self.num_hw_threads,
            r.num_callback_workers == self.num_callback_workers,
            r.worker_queue_capacity == self.worker_queue_capacity,
            r.thread_prefix is Some && r.thread_prefix->0@ == prefix@,
    {
        let mut s = self;
        s.thread_prefix = Some(prefix.to_owned());
        s
    }

    pub fn with_hw_threads(self, threads: usize) -> (r: Self)
        ensures
            r == (EngineConfig { num_hw_threads: threads, ..self }),
    {
        let mut s = self;
        s.num_hw_threads = threads;
        s
    }

    pub fn with_callback_workers(self, workers: usize) -> (r: Self)
        ensures
            r == (EngineConfig { num_callback_workers: workers, ..self }),
    {
        let mut s = self;
        s.num_callback_workers = workers;
        s
    }

    pub fn with_queue_capacity(self, cap: usize) -> (r: Self)
        ensures
            r == (EngineConfig { worker_queue_capacity: cap, ..self }),
    {
        let mut s = self;
        s.worker_queue_capacity = cap;
        s
    }

    /// Threads of the hardware executor: as configured, but at least one.
    pub fn hw_pool_threads(&self) -> (r: usize)
        ensures
            r == if self.num_hw_threads >= DEFAULT_NUM_HW_THREADS {
                self.num_hw_threads
            } else {
                DEFAULT_NUM_HW_THREADS
            },
    {
        if self.num_hw_threads >= DEFAULT_NUM_HW_THREADS {
            self.num_hw_threads
        } else {
            DEFAULT_NUM_HW_THREADS
        }
    }

    /// Threads of the callback pool: as configured, but at least one.
    pub fn callback_pool_threads(&self) -> (r: usize)
        ensures
            r == if self.num_callback_workers >= 1 { self.num_callback_workers } else { 1 },
    {
        if self.num_callback_workers >= 1 {
            self.num_callback_workers
        } else {
            1
        }
    }
}

/// Next step when bringing up the backend for an engine.
#[derive(Debug, Clone, PartialEq, Eq)]
pub enum BackendInitStep {
    /// Initialise this backend next.
    Try(BackendType),
    /// Report the failure of the backend just tried.
    GiveUp,
    /// The requested backend cannot be provided.
    Reject(ScalixError),
}

/// Step after `failed` (the backend whose initialisation just failed, `None` at the start)
/// when the engine was asked for `requested`: automatic selection tries Vulkan, then OpenGL,
/// then the passthrough backend; explicit Vulkan or OpenGL requests are tried once; CPU and
/// passthrough requests get the passthrough backend; anything else is unavailable.
pub open spec fn backend_init_step_spec(requested: BackendType, failed: Option<BackendType>) -> BackendInitStep {
    match requested {
        BackendType::Auto => match failed {
            None => BackendInitStep::Try(BackendType::Vulkan),
            Some(BackendType::Vulkan) => BackendInitStep::Try(BackendType::OpenGL),
            Some(BackendType::OpenGL) => BackendInitStep::Try(BackendType::Passthrough),
            Some(_) => BackendInitStep::GiveUp,
        },
        BackendType::Vulkan | BackendType::OpenGL => match failed {
            None => BackendInitStep::Try(requested),
            Some(_) => BackendInitStep::GiveUp,
        },
        BackendType::Passthrough | BackendType::Cpu => match failed {
            None => BackendInitStep::Try(BackendType::Passthrough),
            Some(_) => BackendInitStep::GiveUp,
        },
        _ => BackendInitStep::Reject(ScalixError::BackendUnavailable(requested)),
    }
}

/// Decides the next step of backend bring-up.
pub fn backend_init_step(requested: BackendType, failed: Option<BackendType>) -> (r: BackendInitStep)
    ensures
        r == backend_init_step_spec(requested, failed),
{
    match requested {
        BackendType::Auto => match failed {
            None => BackendInitStep::Try(BackendType::Vulkan),
            Some(BackendType::Vulkan) => BackendInitStep::Try(BackendType::OpenGL),
            Some(BackendType::OpenGL) => BackendInitStep::Try(BackendType::Passthrough),
            Some(_) => BackendInitStep::GiveUp,
        },
        BackendType::Vulkan | BackendType::OpenGL => match failed {
            None => BackendInitStep::Try(requested),
            Some(_) => BackendInitStep::GiveUp,
        },
        BackendType::Passthrough | BackendType::Cpu => match failed {
            None => BackendInitStep::Try(BackendType::Passthrough),
            Some(_) => BackendInitStep::GiveUp,
        },
        _ => BackendInitStep::Reject(ScalixError::BackendUnavailable(requested)),
    }
}

/// Law: automatic selection falls back from Vulkan to OpenGL to the passthrough backend, which
/// needs no hardware; so an automatically configured engine always gets a backend.
pub proof fn lemma_auto_backend_falls_back_to_passthrough()
    ensures
        backend_init_step_spec(BackendType::Auto, None) == BackendInitStep::Try(BackendType::Vulkan),
        backend_init_step_spec(BackendType::Auto, Some(BackendType::Vulkan)) == BackendInitStep::Try(
            BackendType::OpenGL,
        ),
        backend_init_step_spec(BackendType::Auto, Some(BackendType::OpenGL)) == BackendInitStep::Try(
            BackendType::Passthrough,
        ),
{
}

/// Law: an explicitly requested hardware backend is never replaced by another one.
pub proof fn lemma_explicit_backend_has_no_fallback(requested: BackendType, failed: BackendType)
    requires
        requested is Vulkan || requested is OpenGL,
    ensures
        backend_init_step_spec(requested, None) == BackendInitStep::Try(requested),
        backend_init_step_spec(requested, Some(failed)) == BackendInitStep::GiveUp,
{
}

/// Law: the first step of bring-up serves every request the engine can serve. Automatic
/// selection starts with Vulkan; an explicit Vulkan or OpenGL request is tried on that backend;
/// CPU and passthrough requests are tried at once on the passthrough backend; only the NPU, 2D
/// hardware and OpenCL requests are refused, as unavailable, and nothing else is.
pub proof fn lemma_first_backend_step(requested: BackendType)
    ensures
        requested is Auto ==> backend_init_step_spec(requested, None) == BackendInitStep::Try(
            BackendType::Vulkan,
        ),
        (requested is Vulkan || requested is OpenGL) ==> backend_init_step_spec(requested, None)
            == BackendInitStep::Try(requested),
        (requested is Passthrough || requested is Cpu) ==> backend_init_step_spec(requested, None)
            == BackendInitStep::Try(BackendType::Passthrough),
        (requested is Npu || requested is Hw2d || requested is OpenCL) ==> backend_init_step_spec(
            requested,
            None,
        ) == BackendInitStep::Reject(ScalixError::BackendUnavailable(requested)),
        backend_init_step_spec(requested, None) is Reject <==> (requested is Npu || requested is Hw2d
            || requested is OpenCL),
{
}

/// Law: whatever failed before, a request that needs no hardware (CPU or passthrough) is never
/// refused: its first step tries the passthrough backend, and only after that has failed does
/// bring-up give up.
pub proof fn lemma_software_request_never_refused(requested: BackendType, failed: Option<BackendType>)
    requires
        requested is Passthrough || requested is Cpu,
    ensures
        !(backend_init_step_spec(requested, failed) is Reject),
        failed is None <==> backend_init_step_spec(requested, failed) == BackendInitStep::Try(
            BackendType::Passthrough,
        ),
{
}

/// Unicode `White_Space` characters, which trimming removes.
pub open spec fn is_white_space(c: char) -> bool {
    let v = c as u32;
    (0x09 <= v <= 0x0d) || v == 0x20 || v == 0x85 || v == 0xa0 || v == 0x1680 || (0x2000 <= v
        <= 0x200a) || v == 0x2028 || v == 0x2029 || v == 0x202f || v == 0x205f || v == 0x3000
}

/// `s` without leading white space.
pub open spec fn trim_start_chars(s: Seq<char>) -> Seq<char>
    decreases s.len(),
{
    if s.len() > 0 && is_white_space(s[0]) {
        trim_start_chars(s.drop_first())
    } else {
        s
    }
}

/// `s` without trailing white space.
pub open spec fn trim_end_chars(s: Seq<char>) -> Seq<char>
    decreases s.len(),
{
    if s.len() > 0 && is_white_space(s.last()) {
        trim_end_chars(s.drop_last())
    } else {
        s
    }
}

/// `s` without leading or trailing white space.
pub open spec fn trim_chars(s: Seq<char>) -> Seq<char> {
    trim_end_chars(trim_start_chars(s))
}

/// Bytes of the UTF-8 encoding of `c`.
pub open spec fn utf8_width(c: char) -> int {
    let v = c as u32;
    if v < 0x80 {
        1
    } else if v < 0x800 {
        2
    } else if v < 0x10000 {
        3
    } else {
        4
    }
}

/// Bytes of the UTF-8 encoding of `s`.
pub open spec fn utf8_len(s: Seq<char>) -> int
    decreases s.len(),
{
    if s.len() == 0 {
        0
    } else {
        utf8_len(s.drop_last()) + utf8_width(s.last())
    }
}

/// Longest prefix of `s` that encodes in at most `limit` bytes.
pub open spec fn utf8_prefix(s: Seq<char>, limit: int) -> Seq<char>
    decreases s.len(),
{
    if s.len() == 0 || utf8_width(s[0]) > limit {
        Seq::empty()
    } else {
        seq![s[0]] + utf8_prefix(s.drop_first(), limit - utf8_width(s[0]))
    }
}

/// Decimal digits of `n`.
pub open spec fn decimal_chars(n: nat) -> Seq<char>
    decreases n,
{
    if n < 10 {
        seq![digit_char(n)]
    } else {
        decimal_chars(n / 10).push(digit_char(n % 10))
    }
}

/// ASCII digit for `d < 10`.
pub open spec fn digit_char(d: nat) -> char {
    (('0' as u32) + d) as char
}

/// Thread prefix an engine uses: the longest run of whole leading characters of the trimmed
/// custom prefix that fits in 7 bytes, or, when there is none or it is blank, the first 7
/// digits of the process id.
pub open spec fn sanitized_prefix(custom: Option<Seq<char>>, pid: u32) -> Seq<char> {
    match custom {
        Some(p) if trim_chars(p).len() > 0 => utf8_prefix(trim_chars(p), MAX_THREAD_PREFIX_LEN as int),
        _ => {
            let d = decimal_chars(pid as nat);
            if d.len() > MAX_THREAD_PREFIX_LEN { d.take(MAX_THREAD_PREFIX_LEN as int) } else { d }
        },
    }
}

/// Appends `c` to `s`.
///
/// Calls `String::push`, which appends the character to the string.
#[verifier::external_body]
fn push_char(s: &mut String, c: char)
    ensures
        final(s)@ == old(s)@.push(c),
{
    s.push(c);
}

/// Characters of `s`, in order.
pub(crate) fn collect_chars(s: &str) -> (r: Vec<char>)
    ensures
        r@ == s@,
{
    let mut out: Vec<char> = Vec::new();
    for c in it: s.chars()
        invariant
            out@ == it.seq().take(it.index() as int),
            it.seq() == s@,
    {
        out.push(c);
        assert(out@ =~= it.seq().take(it.index() + 1));
    }
    assert(out@ =~= s@);
    out
}

fn char_width(c: char) -> (r: usize)
    ensures
        r == utf8_width(c),
{
    let v = c as u32;
    if v < 0x80 {
        1
    } else if v < 0x800 {
        2
    } else if v < 0x10000 {
        3
    } else {
        4
    }
}

fn is_white_space_char(c: char) -> (r: bool)
    ensures
        r == is_white_space(c),
{
    let v = c as u32;
    (0x09 <= v && v <= 0x0d) || v == 0x20 || v == 0x85 || v == 0xa0 || v == 0x1680 || (0x2000 <= v
        && v <= 0x200a) || v == 0x2028 || v == 0x2029 || v == 0x202f || v == 0x205f || v == 0x3000
}

proof fn lemma_trim_start_skip(s: Seq<char>, k: int)
    requires
        0 <= k <= s.len(),
        forall|j: int| 0 <= j < k ==> is_white_space(#[trigger] s[j]),
    ensures
        trim_start_chars(s) == trim_start_chars(s.subrange(k, s.len() as int)),
    decreases k,
{
    if k > 0 {
        let t = s.drop_first();
        assert forall|j: int| 0 <= j < k - 1 implies is_white_space(#[trigger] t[j]) by {
            assert(t[j] == s[j + 1]);
        }
        lemma_trim_start_skip(t, k - 1);
        assert(t.subrange(k - 1, t.len() as int) =~= s.subrange(k, s.len() as int));
    } else {
        assert(s.subrange(0, s.len() as int) =~= s);
    }
}

proof fn lemma_trim_end_skip(s: Seq<char>, k: int)
    requires
        0 <= k <= s.len(),
        forall|j: int| k <= j < s.len() ==> is_white_space(#[trigger] s[j]),
    ensures
        trim_end_chars(s) == trim_end_chars(s.subrange(0, k)),
    decreases s.len() - k,
{
    if k < s.len() {
        let t = s.drop_last();
        assert forall|j: int| k <= j < t.len() implies is_white_space(#[trigger] t[j]) by {
            assert(t[j] == s[j]);
        }
        lemma_trim_end_skip(t, k);
        assert(t.subrange(0, k) =~= s.subrange(0, k));
    } else {
        assert(s.subrange(0, k) =~= s);
    }
}

/// Characters `a..b` of `v` with `v[a..]` free of leading white space and `v[..b]` of
/// trailing white space are the trimmed characters.
proof fn lemma_trim_bounds(v: Seq<char>, a: int, b: int)
    requires
        0 <= a <= b <= v.len(),
        forall|j: int| 0 <= j < a ==> is_white_space(#[trigger] v[j]),
        forall|j: int| b <= j < v.len() ==> is_white_space(#[trigger] v[j]),
        a == b ==> a == v.len(),
        a < b ==> !is_white_space(v[a]) && !is_white_space(v[b - 1]),
    ensures
        trim_chars(v) == v.subrange(a, b),
{
    lemma_trim_start_skip(v, a);
    let s1 = v.subrange(a, v.len() as int);
    if a < b {
        assert(trim_start_chars(s1) == s1);
        assert forall|j: int| b - a <= j < s1.len() implies is_white_space(#[trigger] s1[j]) by {
            assert(s1[j] == v[j + a]);
        }
        lemma_trim_end_skip(s1, b - a);
        let s2 = s1.subrange(0, b - a);
        assert(s2 =~= v.subrange(a, b));
        assert(s2.last() == v[b - 1]);
        assert(trim_end_chars(s2) == s2);
    } else {
        assert(s1.len() == 0);
        assert(v.subrange(a, b) =~= Seq::<char>::empty());
        assert(s1 =~= Seq::<char>::empty());
    }
}

proof fn lemma_utf8_prefix_step(s: Seq<char>, i: int, limit: int)
    requires
        0 <= i < s.len(),
        utf8_width(s[i]) <= limit - utf8_len(s.take(i)),
        utf8_prefix(s, limit) == s.take(i) + utf8_prefix(s.subrange(i, s.len() as int), limit - utf8_len(s.take(i))),
    ensures
        utf8_prefix(s, limit) == s.take(i + 1) + utf8_prefix(
            s.subrange(i + 1, s.len() as int),
            limit - utf8_len(s.take(i + 1)),
        ),
{
    let rest = s.subrange(i, s.len() as int);
    assert(rest[0] == s[i]);
    assert(rest.drop_first() =~= s.subrange(i + 1, s.len() as int));
    assert(s.take(i + 1).drop_last() =~= s.take(i));
    assert(s.take(i + 1).last() == s[i]);
    assert(s.take(i) + seq![s[i]] =~= s.take(i + 1));
}

proof fn lemma_utf8_prefix_stop(s: Seq<char>, i: int, limit: int)
    requires
        0 <= i <= s.len(),
        i == s.len() || utf8_width(s[i]) > limit - utf8_len(s.take(i)),
        utf8_prefix(s, limit) == s.take(i) + utf8_prefix(s.subrange(i, s.len() as int), limit - utf8_len(s.take(i))),
    ensures
        utf8_prefix(s, limit) == s.take(i),
{
    let rest = s.subrange(i, s.len() as int);
    if i < s.len() {
        assert(rest[0] == s[i]);
    }
    assert(utf8_prefix(rest, limit - utf8_len(s.take(i))) =~= Seq::<char>::empty());
    assert(s.take(i) + Seq::<char>::empty() =~= s.take(i));
}

/// Appends the decimal digits of `n` to `out`.
fn push_decimal(n: u64, out: &mut Vec<char>)
    ensures
        final(out)@ == old(out)@ + decimal_chars(n as nat),
    decreases n,
{
    if n >= 10 {
        push_decimal(n / 10, out);
    }
    let d = n % 10;
    let c = char_from_digit(d);
    let ghost before = out@;
    out.push(c);
    proof {
        if n >= 10 {
            assert(decimal_chars(n as nat) == decimal_chars((n / 10) as nat).push(digit_char((n % 10) as nat)));
        }
    }
    assert(out@ =~= old(out)@ + decimal_chars(n as nat));
}

fn char_from_digit(d: u64) -> (r: char)
    requires
        d < 10,
    ensures
        r == digit_char(d as nat),
{
    match d {
        0 => '0',
        1 => '1',
        2 => '2',
        3 => '3',
        4 => '4',
        5 => '5',
        6 => '6',
        7 => '7',
        8 => '8',
        _ => '9',
    }
}

/// Chooses the thread name prefix of an engine: the trimmed `custom_prefix` cut to at most 7
/// bytes (never inside a character), or the first 7 digits of `pid` when there is no usable
/// custom prefix.
pub fn sanitize_thread_prefix(custom_prefix: Option<&str>, pid: u32) -> (r: String)
    ensures
        r@ == sanitized_prefix(
            match custom_prefix {
                Some(p) => Some(p@),
                None => None::<Seq<char>>,
            },
            pid,
        ),
{
    if let Some(p) = custom_prefix {
        let v = collect_chars(p);
        let n = v.len();
        let mut a: usize = 0;
        while a < n && is_white_space_char(v[a])
            invariant
                n == v@.len(),
                0 <= a <= n,
                forall|j: int| 0 <= j < a ==> is_white_space(#[trigger] v@[j]),
            decreases n - a,
        {
            a = a + 1;
        }
        let mut b: usize = n;
        while b > a && is_white_space_char(v[b - 1])
            invariant
                n == v@.len(),
                a <= b <= n,
                forall|j: int| b <= j < n ==> is_white_space(#[trigger] v@[j]),
            decreases b - a,
        {
            b = b - 1;
        }
        proof {
            lemma_trim_bounds(v@, a as int, b as int);
        }
        if a < b {
            let ghost t = v@.subrange(a as int, b as int);
            let mut out = String::new();
            let mut used: usize = 0;
            let mut i: usize = a;
            proof {
                assert(t.take(0) =~= Seq::<char>::empty());
                assert(t.subrange(0, t.len() as int) =~= t);
                assert(Seq::<char>::empty() + utf8_prefix(t, MAX_THREAD_PREFIX_LEN as int)
                    =~= utf8_prefix(t, MAX_THREAD_PREFIX_LEN as int));
            }
            loop
                invariant
                    n == v@.len(),
                    a <= i <= b <= n,
                    t == v@.subrange(a as int, b as int),
                    used <= MAX_THREAD_PREFIX_LEN,
                    used == utf8_len(t.take(i - a)),
                    out@ == t.take(i - a),
                    utf8_prefix(t, MAX_THREAD_PREFIX_LEN as int) == t.take(i - a) + utf8_prefix(
                        t.subrange(i - a, t.len() as int),
                        MAX_THREAD_PREFIX_LEN - utf8_len(t.take(i - a)),
                    ),
                ensures
                    out@ == utf8_prefix(t, MAX_THREAD_PREFIX_LEN as int),
                decreases b - i,
            {
                if i == b {
                    proof {
                        lemma_utf8_prefix_stop(t, i - a, MAX_THREAD_PREFIX_LEN as int);
                    }
                    break;
                }
                let w = char_width(v[i]);
                assert(t[i - a] == v@[i as int]);
                if w > MAX_THREAD_PREFIX_LEN - used {
                    proof {
                        lemma_utf8_prefix_stop(t, i - a, MAX_THREAD_PREFIX_LEN as int);
                    }
                    break;
                }
                proof {
                    lemma_utf8_prefix_step(t, i - a, MAX_THREAD_PREFIX_LEN as int);
                    assert(t.take(i - a + 1).drop_last() =~= t.take(i - a));
                    assert(t.take(i - a + 1).last() == t[i - a]);
                }
                push_char(&mut out, v[i]);
                assert(out@ =~= t.take(i - a + 1));
                used = used + w;
                i = i + 1;
            }
            return out;
        }
    }
    let mut digits: Vec<char> = Vec::new();
    push_decimal(pid as u64, &mut digits);
    assert(digits@ =~= decimal_chars(pid as nat));
    let limit = if digits.len() > MAX_THREAD_PREFIX_LEN { MAX_THREAD_PREFIX_LEN } else { digits.len() };
    let mut out = String::new();
    let mut k: usize = 0;
    while k < limit
        invariant
            limit <= digits@.len(),
            0 <= k <= limit,
            out@ == digits@.take(k as int),
        decreases limit - k,
    {
        push_char(&mut out, digits[k]);
        assert(out@ =~= digits@.take(k + 1));
        k = k + 1;
    }
    assert(digits@.take(limit as int) =~= if digits@.len() > MAX_THREAD_PREFIX_LEN {
        digits@.take(MAX_THREAD_PREFIX_LEN as int)
    } else {
        digits@
    });
    out
}

/// Name of the hardware executor thread: `<prefix>/scx-hw`.
pub fn hw_thread_name(prefix: &str) -> (r: String)
    ensures
        r@ == prefix@ + "/scx-hw"@,
{
    let mut s = prefix.to_owned();
    s.append("/scx-hw");
    s
}

/// Name prefix of the callback worker threads: `<prefix>/scx-w`.
pub fn callback_thread_prefix(prefix: &str) -> (r: String)
    ensures
        r@ == prefix@ + "/scx-w"@,
{
    let mut s = prefix.to_owned();
    s.append("/scx-w");
    s
}

/// Name of worker `id` of a pool of `num_threads` threads: the bare prefix for a single
/// thread, the prefix followed by the decimal id otherwise.
pub fn worker_thread_name(name_prefix: &str, num_threads: usize, id: usize) -> (r: String)
    ensures
        r@ == if num_threads == 1 {
            name_prefix@
        } else {
            name_prefix@ + decimal_chars(id as nat)
        },
{
    let mut s = name_prefix.to_owned();
    if num_threads == 1 {
        return s;
    }
    let mut digits: Vec<char> = Vec::new();
    push_decimal(id as u64, &mut digits);
    assert(digits@ =~= decimal_chars(id as nat));
    let mut k: usize = 0;
    while k < digits.len()
        invariant
            0 <= k <= digits@.len(),
            s@ == name_prefix@ + digits@.take(k as int),
        decreases digits@.len() - k,
    {
        push_char(&mut s, digits[k]);
        assert(s@ =~= name_prefix@ + digits@.take(k + 1));
        k = k + 1;
    }
    assert(digits@.take(digits@.len() as int) =~= digits@);
    s
}

/// True when every character of `s` is ASCII.
pub open spec fn all_ascii(s: Seq<char>) -> bool {
    forall|i: int| 0 <= i < s.len() ==> (#[trigger] s[i] as u32) < 0x80
}

proof fn lemma_utf8_len_concat(a: Seq<char>, b: Seq<char>)
    ensures
        utf8_len(a + b) == utf8_len(a) + utf8_len(b),
    decreases b.len(),
{
    if b.len() == 0 {
        assert(a + b =~= a);
    } else {
        lemma_utf8_len_concat(a, b.drop_last());
        assert((a + b).drop_last() =~= a + b.drop_last());
        assert((a + b).last() == b.last());
    }
}

proof fn lemma_utf8_len_ascii(s: Seq<char>)
    requires
        all_ascii(s),
    ensures
        utf8_len(s) == s.len(),
    decreases s.len(),
{
    if s.len() > 0 {
        assert(all_ascii(s.drop_last())) by {
            assert forall|i: int| 0 <= i < s.drop_last().len() implies (#[trigger] s.drop_last()[i] as u32) < 0x80 by {
                assert(s.drop_last()[i] == s[i]);
            }
        }
        lemma_utf8_len_ascii(s.drop_last());
        assert((s.last() as u32) < 0x80);
    }
}

proof fn lemma_utf8_prefix_fits(s: Seq<char>, limit: int)
    requires
        limit >= 0,
    ensures
        utf8_len(utf8_prefix(s, limit)) <= limit,
    decreases s.len(),
{
    if s.len() > 0 && utf8_width(s[0]) <= limit {
        let rest = utf8_prefix(s.drop_first(), limit - utf8_width(s[0]));
        lemma_utf8_prefix_fits(s.drop_first(), limit - utf8_width(s[0]));
        lemma_utf8_len_concat(seq![s[0]], rest);
        assert(seq![s[0]].drop_last() =~= Seq::<char>::empty());
        assert(utf8_len(Seq::<char>::empty()) == 0);
        assert(utf8_len(seq![s[0]]) == utf8_width(s[0]));
    } else {
        assert(utf8_len(Seq::<char>::empty()) == 0);
    }
}

proof fn lemma_decimal_ascii(n: nat)
    ensures
        all_ascii(decimal_chars(n)),
        decimal_chars(n).len() >= 1,
        n < 100 ==> decimal_chars(n).len() <= 2,
    decreases n,
{
    if n >= 10 {
        lemma_decimal_ascii(n / 10);
        let d = decimal_chars(n / 10);
        let e = d.push(digit_char(n % 10));
        assert forall|i: int| 0 <= i < e.len() implies (#[trigger] e[i] as u32) < 0x80 by {
            if i < d.len() {
                assert(e[i] == d[i]);
            }
        }
        if n < 100 {
            assert(n / 10 < 10);
        }
    }
}

/// Law: thread names built from a sanitized prefix fit Linux's 15-byte thread name limit: the
/// prefix takes at most 7 bytes, the hardware executor name at most 14, and callback worker
/// names at most 15 for worker ids below 100.
pub proof fn lemma_thread_names_fit(custom: Option<Seq<char>>, pid: u32, id: nat)
    requires
        id < 100,
    ensures
        utf8_len(sanitized_prefix(custom, pid)) <= MAX_THREAD_PREFIX_LEN,
        utf8_len(sanitized_prefix(custom, pid) + "/scx-hw"@) <= 14,
        utf8_len(sanitized_prefix(custom, pid) + "/scx-w"@ + decimal_chars(id)) <= 15,
{
    let p = sanitized_prefix(custom, pid);
    match custom {
        Some(c) if trim_chars(c).len() > 0 => {
            lemma_utf8_prefix_fits(trim_chars(c), MAX_THREAD_PREFIX_LEN as int);
        },
        _ => {
            let d = decimal_chars(pid as nat);
            lemma_decimal_ascii(pid as nat);
            if d.len() > MAX_THREAD_PREFIX_LEN {
                assert(all_ascii(d.take(MAX_THREAD_PREFIX_LEN as int))) by {
                    assert forall|i: int| 0 <= i < d.take(MAX_THREAD_PREFIX_LEN as int).len() implies
                        (#[trigger] d.take(MAX_THREAD_PREFIX_LEN as int)[i] as u32) < 0x80 by {
                        assert(d.take(MAX_THREAD_PREFIX_LEN as int)[i] == d[i]);
                    }
                }
                lemma_utf8_len_ascii(d.take(MAX_THREAD_PREFIX_LEN as int));
            } else {
                lemma_utf8_len_ascii(d);
            }
        },
    }
    reveal_strlit("/scx-hw");
    reveal_strlit("/scx-w");
    let hw = "/scx-hw"@;
    let w = "/scx-w"@;
    assert(all_ascii(hw));
    assert(all_ascii(w));
    lemma_utf8_len_ascii(hw);
    lemma_utf8_len_ascii(w);
    lemma_decimal_ascii(id);
    lemma_utf8_len_ascii(decimal_chars(id));
    lemma_utf8_len_concat(p, hw);
    lemma_utf8_len_concat(p, w);
    lemma_utf8_len_concat(p + w, decimal_chars(id));
}

} // verus!
