//! Configuring clients and workers.
use std::time::Duration;
use tonic::transport::{ClientTlsConfig, Endpoint};
use vstd::prelude::*;

use crate::client::endpoint as connection;
use crate::client::{
    ApiKeyInterceptor, ClientError, ConnectPlan, RetryPolicy, SeppClient, SeppClientBuilder,
};
use crate::reserve::{ReserveOptions, ReserveOptionsError};
use crate::text::{self, decimal_string, signed_decimal_string};
use crate::time;
use crate::worker::{
    choose_hostname, default_worker_id, identity, worker_id_of, AutoExtend, Worker,
    WorkerBuilderError,
};

verus! {

/// A worker is refused exactly where its queues or its lease are. A new one has
/// up to 16 jobs in flight, waits half a minute for jobs and a second after a
/// failed reserve, and has no handlers.
pub proof fn a_new_worker_has_its_defaults<H>(
    queues: Vec<String>,
    lease: Duration,
    host: &str,
    pid: u32,
    r: Result<Worker<H>, WorkerBuilderError>,
    i: int,
    job_type: Seq<char>,
)
    requires
        call_ensures(Worker::<H>::new, (queues, lease, host, pid), r),
    ensures
        r is Ok <==> queues@.len() > 0 && time::duration_nanos(lease) > 0 && (forall|k: int|
            0 <= k < queues@.len() ==> (#[trigger] queues@[k])@.len() > 0),
        r matches Err(e) ==> e is ReserveOptions,
        r matches Ok(w) ==> w@.opts.queues.len() == queues@.len() && (0 <= i < queues@.len()
            ==> w@.opts.queues[i] == queues@[i]@),
        r matches Ok(w) ==> w@.opts.lease_duration == lease,
        r matches Ok(w) ==> time::duration_nanos(w@.opts.wait_timeout) == 30_000_000_000,
        r matches Ok(w) ==> w@.opts.max_jobs is None,
        r matches Ok(w) ==> (w@.opts.worker_id matches Some(id) && id.len() > host@.len() && id.take(
            host@.len() as int,
        ) == host@),
        r matches Ok(w) ==> w@.max_in_flight == 16,
        r matches Ok(w) ==> time::duration_nanos(w@.reserve_error_backoff) == 1_000_000_000,
        r matches Ok(w) ==> w@.auto_extend is None && w@.catch_all_handler is None,
        r matches Ok(w) ==> !w@.handlers.contains_key(job_type),
{
    let names = text::texts(queues@);
    assert(forall|k: int| 0 <= k < queues@.len() ==> names[k] == (#[trigger] queues@[k])@);
    assert(forall|k: int| 0 <= k < names.len() ==> #[trigger] names[k] == queues@[k]@);
    if exists|k: int| 0 <= k < names.len() && (#[trigger] names[k]).len() == 0 {
        let k = choose|k: int| 0 <= k < names.len() && (#[trigger] names[k]).len() == 0;
        assert(queues@[k]@.len() == 0);
    }
    if exists|k: int| 0 <= k < queues@.len() && (#[trigger] queues@[k])@.len() == 0 {
        let k = choose|k: int| 0 <= k < queues@.len() && (#[trigger] queues@[k])@.len() == 0;
        assert(names[k].len() == 0);
    }
    if r is Ok {
        reveal_strlit("-");
        let id = r->Ok_0@.opts.worker_id->0;
        assert(id.take(host@.len() as int) =~= host@);
    }
}

/// Each setting of a worker is the one that was last given, and leaves the
/// others alone.
pub proof fn a_worker_is_what_was_asked_for<H>(
    w: Worker<H>,
    d: Duration,
    max: u32,
    n: usize,
    id: &str,
    wait: Worker<H>,
    jobs: Worker<H>,
    slots: Worker<H>,
    backoff: Worker<H>,
    named: Result<Worker<H>, WorkerBuilderError>,
)
    requires
        call_ensures(Worker::<H>::with_wait_timeout, (w, d), wait),
        call_ensures(Worker::<H>::with_max_jobs, (w, max), jobs),
        call_ensures(Worker::<H>::with_max_in_flight, (w, n), slots),
        call_ensures(Worker::<H>::with_reserve_error_backoff, (w, d), backoff),
        call_ensures(Worker::<H>::with_worker_id, (w, id), named),
    ensures
        wait@.opts.wait_timeout == d,
        wait@.opts.queues == w@.opts.queues && wait@.opts.lease_duration == w@.opts.lease_duration
            && wait@.opts.worker_id == w@.opts.worker_id && wait@.opts.max_jobs == w@.opts.max_jobs,
        same_but_for_options(wait, w) && wait@.max_in_flight == w@.max_in_flight
            && wait@.reserve_error_backoff == w@.reserve_error_backoff,
        jobs@.opts.max_jobs == Some(max),
        jobs@.opts.queues == w@.opts.queues && jobs@.opts.lease_duration == w@.opts.lease_duration
            && jobs@.opts.worker_id == w@.opts.worker_id && jobs@.opts.wait_timeout
            == w@.opts.wait_timeout,
        same_but_for_options(jobs, w) && jobs@.max_in_flight == w@.max_in_flight
            && jobs@.reserve_error_backoff == w@.reserve_error_backoff,
        slots@.max_in_flight == n,
        same_but_for_options(slots, w) && slots@.opts == w@.opts && slots@.reserve_error_backoff
            == w@.reserve_error_backoff,
        backoff@.reserve_error_backoff == d,
        same_but_for_options(backoff, w) && backoff@.opts == w@.opts && backoff@.max_in_flight
            == w@.max_in_flight,
        named is Ok <==> id@.len() > 0,
        named matches Err(e) ==> e == WorkerBuilderError::ReserveOptions(
            ReserveOptionsError::EmptyWorkerId,
        ),
        named matches Ok(x) ==> x@.opts.worker_id == Some(id@) && x@.opts.queues == w@.opts.queues
            && x@.opts.lease_duration == w@.opts.lease_duration && x@.opts.wait_timeout
            == w@.opts.wait_timeout && x@.opts.max_jobs == w@.opts.max_jobs,
        named matches Ok(x) ==> same_but_for_options(x, w) && x@.max_in_flight == w@.max_in_flight
            && x@.reserve_error_backoff == w@.reserve_error_backoff,
{
}

/// Whether two workers have the same handlers and keep leases alive alike.
pub open spec fn same_but_for_options<H>(a: Worker<H>, b: Worker<H>) -> bool {
    &&& a@.handlers == b@.handlers
    &&& a@.catch_all_handler == b@.catch_all_handler
    &&& a@.auto_extend == b@.auto_extend
}

/// What a worker was asked for can be read from it.
pub proof fn a_worker_tells_what_it_is<H>(
    w: Worker<H>,
    n: usize,
    d: Duration,
    a: Option<AutoExtend>,
    o: &ReserveOptions,
    count: usize,
)
    requires
        call_ensures(Worker::<H>::options, (&w,), o),
        call_ensures(Worker::<H>::handler_count, (&w,), count),
        call_ensures(Worker::<H>::max_in_flight, (&w,), n),
        call_ensures(Worker::<H>::reserve_error_backoff, (&w,), d),
        call_ensures(Worker::<H>::auto_extend, (&w,), a),
    ensures
        n == w@.max_in_flight,
        d == w@.reserve_error_backoff,
        a == w@.auto_extend,
        o@ == w@.opts,
        count == w@.handlers.dom().len(),
{
}

/// A job type goes to the handler that was last registered for it, and to the
/// catch-all handler where there is none; registering another job type does not
/// change where it goes.
pub proof fn a_job_goes_to_its_handler<H>(
    w: Worker<H>,
    job_type: &str,
    h: H,
    other: &str,
    before: Option<&H>,
    put: Worker<H>,
    gone: Worker<H>,
    caught: Worker<H>,
    to_put: Option<&H>,
    to_gone: Option<&H>,
    to_caught: Option<&H>,
    other_put: Option<&H>,
    other_gone: Option<&H>,
)
    requires
        call_ensures(Worker::<H>::replace_handler, (w, job_type, h), put),
        call_ensures(Worker::<H>::remove_handler, (w, job_type), gone),
        call_ensures(Worker::<H>::with_catch_all_handler, (w, h), caught),
        call_ensures(Worker::<H>::route, (&put, job_type), to_put),
        call_ensures(Worker::<H>::route, (&gone, job_type), to_gone),
        call_ensures(Worker::<H>::route, (&caught, other), to_caught),
        call_ensures(Worker::<H>::route, (&w, other), before),
        call_ensures(Worker::<H>::route, (&put, other), other_put),
        call_ensures(Worker::<H>::route, (&gone, other), other_gone),
    ensures
        to_put matches Some(x) && *x == h,
        to_gone is Some <==> w@.catch_all_handler is Some,
        to_gone matches Some(x) ==> w@.catch_all_handler == Some(*x),
        to_caught is Some,
        w@.handlers.contains_key(other@) ==> to_caught->0 == w@.handlers[other@],
        !w@.handlers.contains_key(other@) ==> to_caught->0 == h,
        other@ != job_type@ ==> (other_put is Some <==> before is Some),
        other@ != job_type@ && before is Some ==> *other_put->0 == *before->0,
        other@ != job_type@ ==> (other_gone is Some <==> before is Some),
        other@ != job_type@ && before is Some ==> *other_gone->0 == *before->0,
{
}

/// A handler is registered exactly where its job type has none, as it is
/// replaced, and is refused else; nothing but the handlers changes.
pub proof fn a_second_handler_is_refused<H>(
    w: Worker<H>,
    job_type: &str,
    h: H,
    r: Result<Worker<H>, WorkerBuilderError>,
    put: Worker<H>,
    gone: Worker<H>,
    caught: Worker<H>,
)
    requires
        call_ensures(Worker::<H>::handle, (w, job_type, h), r),
        call_ensures(Worker::<H>::replace_handler, (w, job_type, h), put),
        call_ensures(Worker::<H>::remove_handler, (w, job_type), gone),
        call_ensures(Worker::<H>::with_catch_all_handler, (w, h), caught),
    ensures
        r is Ok <==> !w@.handlers.contains_key(job_type@),
        r matches Err(e) ==> (e matches WorkerBuilderError::DuplicateHandler(t) && t@ == job_type@),
        r matches Ok(x) ==> x@ == put@,
        put@.opts == w@.opts && put@.catch_all_handler == w@.catch_all_handler && put@.auto_extend
            == w@.auto_extend && put@.max_in_flight == w@.max_in_flight
            && put@.reserve_error_backoff == w@.reserve_error_backoff,
        gone@.opts == w@.opts && gone@.catch_all_handler == w@.catch_all_handler
            && gone@.auto_extend == w@.auto_extend && gone@.max_in_flight == w@.max_in_flight
            && gone@.reserve_error_backoff == w@.reserve_error_backoff,
        caught@.opts == w@.opts && caught@.handlers == w@.handlers && caught@.auto_extend
            == w@.auto_extend && caught@.max_in_flight == w@.max_in_flight
            && caught@.reserve_error_backoff == w@.reserve_error_backoff,
{
}

/// A worker id is the name of the machine, the number of the process and the
/// first eight digits of a random number, with a hyphen between each two.
pub proof fn a_worker_id_tells_machine_and_process(host: &str, pid: u32, rand: &str, id: String)
    requires
        call_ensures(worker_id_of, (host, pid, rand), id),
        rand@.len() == 32,
    ensures
        ({
            let n = text::decimal(pid as nat);
            let h = host@.len() as int;
            &&& id@.len() == h + n.len() + 10
            &&& id@.take(h) == host@
            &&& id@[h] == '-'
            &&& id@.subrange(h + 1, h + 1 + n.len()) == n
            &&& id@[h + 1 + n.len()] == '-'
            &&& id@.skip(h + 2 + n.len()) == rand@.take(8)
        }),
{
    reveal_strlit("-");
    let n = text::decimal(pid as nat);
    let h = host@.len() as int;
    assert(id@.take(h) =~= host@);
    assert(id@.subrange(h + 1, h + 1 + n.len()) =~= n);
    assert(id@.skip(h + 2 + n.len()) =~= rand@.take(8));
}

/// A generated worker id starts with the machine and the process, and ends with
/// eight hex digits.
pub proof fn a_generated_worker_id_tells_machine_and_process(
    host: &str,
    pid: u32,
    id: String,
    i: int,
)
    requires
        call_ensures(default_worker_id, (host, pid), id),
    ensures
        ({
            let n = text::decimal(pid as nat);
            let h = host@.len() as int;
            &&& id@.len() == h + n.len() + 10
            &&& id@.take(h) == host@
            &&& id@[h] == '-'
            &&& id@.subrange(h + 1, h + 1 + n.len()) == n
            &&& id@[h + 1 + n.len()] == '-'
            &&& h + 2 + n.len() <= i < id@.len() ==> ('0' <= id@[i] <= '9' || 'a' <= id@[i] <= 'f')
            &&& exists|rand: Seq<char>| #[trigger]
                identity::is_drawn(rand) && id@.skip(h + 2 + n.len()) == rand.take(8)
        }),
{
    reveal_strlit("-");
    let n = text::decimal(pid as nat);
    let h = host@.len() as int;
    assert(id@.take(h) =~= host@);
    assert(id@.subrange(h + 1, h + 1 + n.len()) =~= n);
    let rand = choose|rand: Seq<char>|
        identity::is_drawn(rand) && text::is_lower_hex_field(rand, 32) && id@
            == #[trigger] identity::worker_id_spec(host@, pid, rand);
    assert(id@.skip(h + 2 + n.len()) =~= rand.take(8));
}

/// The value that decimal digits stand for.
pub open spec fn decimal_value(s: Seq<char>) -> int
    decreases s.len(),
{
    if s.len() == 0 {
        0
    } else {
        10 * decimal_value(s.drop_last()) + (s.last() as int - '0' as int)
    }
}

/// A number is written in decimal digits that stand for it, with no zero in
/// front of another digit.
pub proof fn a_number_is_written_in_its_digits(n: nat, i: int)
    ensures
        decimal_value(text::decimal(n)) == n,
        text::decimal(n).len() >= 1,
        text::decimal(n).len() > 1 ==> text::decimal(n)[0] != '0',
        0 <= i < text::decimal(n).len() ==> '0' <= text::decimal(n)[i] <= '9',
    decreases n,
{
    if n >= 10 {
        a_number_is_written_in_its_digits(n / 10, i);
        a_number_is_written_in_its_digits(n / 10, 0);
        let s = text::decimal(n);
        assert(s.drop_last() =~= text::decimal(n / 10));
        if n / 10 < 10 {
            assert(text::decimal(n / 10) =~= seq![text::digit_char(n / 10)]);
        }
        assert(s[0] == text::decimal(n / 10)[0]);
        assert(text::digit_char(n % 10) as int == n % 10 + 48);
        if n / 10 < 10 {
            assert(text::digit_char(n / 10) as int == n / 10 + 48);
        } else {
            a_number_is_written_in_its_digits(n / 10 / 10, 0);
        }
    } else {
        let s = text::decimal(n);
        assert(s =~= seq![text::digit_char(n)]);
        assert(s.drop_last() =~= Seq::<char>::empty());
        assert(text::digit_char(n) as int == n + 48);
        assert(decimal_value(s.drop_last()) == 0);
    }
}

/// A negative number is written as its magnitude with a minus sign in front.
pub proof fn a_signed_number_is_written_with_its_sign(n: i64, s: String, m: u64, t: String)
    requires
        call_ensures(signed_decimal_string, (n,), s),
        call_ensures(decimal_string, (m,), t),
        m == if n < 0 {
            -n
        } else {
            n as int
        },
    ensures
        n >= 0 ==> s@ == t@,
        n < 0 ==> s@.len() == t@.len() + 1 && s@[0] == '-' && s@.skip(1) == t@,
        decimal_value(t@) == m,
{
    reveal_strlit("-");
    a_number_is_written_in_its_digits(m as nat, 0);
    if n < 0 {
        assert(s@.skip(1) =~= t@);
    }
}

/// The machine is named by the first of the two variables that is set, unless
/// that is empty, and else by the operating system.
pub proof fn the_first_variable_names_the_machine(
    h: Option<String>,
    c: Option<String>,
    os: String,
    r: String,
)
    requires
        call_ensures(choose_hostname, (h, c, os), r),
    ensures
        h matches Some(x) ==> x@.len() > 0 ==> r@ == x@,
        h matches Some(x) ==> x@.len() == 0 ==> r@ == os@,
        h is None ==> (c matches Some(x) ==> x@.len() > 0 ==> r@ == x@),
        h is None ==> (c matches Some(x) ==> x@.len() == 0 ==> r@ == os@),
        h is None && c is None ==> r@ == os@,
{
}

/// An API key is sent as a bearer token, exactly where it holds no control
/// character but tabs; without a key nothing is sent.
pub proof fn an_api_key_is_sent_as_a_bearer_token(
    key: Option<&str>,
    r: Option<ApiKeyInterceptor>,
    on: bool,
    sent: &Option<String>,
)
    requires
        call_ensures(ApiKeyInterceptor::new, (key,), r),
        r matches Some(a) ==> call_ensures(ApiKeyInterceptor::is_enabled, (&a,), on),
        r matches Some(a) ==> call_ensures(ApiKeyInterceptor::authorization, (&a,), sent),
    ensures
        key is None ==> r is Some && !on && sent is None,
        key matches Some(k) ==> (r is Some <==> forall|i: int|
            0 <= i < k@.len() ==> ((#[trigger] k@[i]) as int >= 32 && k@[i] as int != 127) || k@[i]
                as int == 9),
        key matches Some(k) ==> r is Some ==> on && (sent matches Some(s) && s@ == "Bearer "@ + k@),
{
    if key is Some {
        let k = key->0;
        assert(forall|i: int|
            0 <= i < k@.len() ==> (crate::client::auth::is_header_char(#[trigger] k@[i]) <==> ((
            k@[i] as int >= 32 && k@[i] as int != 127) || k@[i] as int == 9)));
    }
}

/// An interceptor without a key sends nothing.
pub proof fn a_disabled_interceptor_sends_nothing(
    a: ApiKeyInterceptor,
    sent: &Option<String>,
)
    requires
        call_ensures(ApiKeyInterceptor::disabled, (), a),
        call_ensures(ApiKeyInterceptor::authorization, (&a,), sent),
    ensures
        sent is None,
{
}

/// A client starts out with no key, no encryption, one attempt and a deadline of
/// half a minute.
pub proof fn a_new_client_has_its_defaults(
    addr: &str,
    b: SeppClientBuilder,
    c: SeppClientBuilder,
    d: SeppClient,
    p: RetryPolicy,
)
    requires
        call_ensures(SeppClient::builder, (addr,), b),
        call_ensures(SeppClientBuilder::new, (addr,), c),
        call_ensures(SeppClient::unconfigured, (), d),
        call_ensures(<RetryPolicy as Default>::default, (), p),
    ensures
        b@.addr == addr@ && c@.addr == addr@,
        b@.api_key is None && c@.api_key is None,
        b@.tls is None && c@.tls is None,
        b@.max_receive_message_bytes is None && c@.max_receive_message_bytes is None,
        time::duration_nanos(b@.rpc_timeout) == 30_000_000_000,
        time::duration_nanos(c@.rpc_timeout) == 30_000_000_000,
        time::duration_nanos(d@.rpc_timeout) == 30_000_000_000,
        b@.retry_policy.max_attempts == 1 && c@.retry_policy.max_attempts == 1
            && d@.retry_policy.max_attempts == 1,
        b@.retry_policy.jitter && c@.retry_policy.jitter && d@.retry_policy.jitter,
        time::duration_nanos(b@.retry_policy.initial_backoff) == time::duration_nanos(
            p@.initial_backoff,
        ),
        time::duration_nanos(c@.retry_policy.initial_backoff) == time::duration_nanos(
            p@.initial_backoff,
        ),
        time::duration_nanos(d@.retry_policy.initial_backoff) == time::duration_nanos(
            p@.initial_backoff,
        ),
        time::duration_nanos(b@.retry_policy.max_backoff) == time::duration_nanos(p@.max_backoff),
        time::duration_nanos(c@.retry_policy.max_backoff) == time::duration_nanos(p@.max_backoff),
        time::duration_nanos(d@.retry_policy.max_backoff) == time::duration_nanos(p@.max_backoff),
        b@.retry_policy.multiplier.bits == 0x4000_0000_0000_0000u64,
        c@.retry_policy.multiplier.bits == 0x4000_0000_0000_0000u64,
        d@.retry_policy.multiplier.bits == 0x4000_0000_0000_0000u64,
{
}

/// Each setting of a client is the one that was last given, and leaves the
/// others alone. Every way to set up encryption turns it on.
pub proof fn a_client_is_what_was_asked_for(
    b: SeppClientBuilder,
    key: &str,
    policy: RetryPolicy,
    d: Duration,
    bytes: usize,
    config: ClientTlsConfig,
    pem: &[u8],
    domain: &str,
    k: SeppClientBuilder,
    p: SeppClientBuilder,
    t: SeppClientBuilder,
    m: SeppClientBuilder,
    c: SeppClientBuilder,
    native: SeppClientBuilder,
    ca: SeppClientBuilder,
    named: SeppClientBuilder,
)
    requires
        call_ensures(SeppClientBuilder::api_key, (b, key), k),
        call_ensures(SeppClientBuilder::retry_policy, (b, policy), p),
        call_ensures(SeppClientBuilder::rpc_timeout, (b, d), t),
        call_ensures(SeppClientBuilder::max_receive_message_bytes, (b, bytes), m),
        call_ensures(SeppClientBuilder::tls_config, (b, config), c),
        call_ensures(SeppClientBuilder::tls, (b,), native),
        call_ensures(SeppClientBuilder::tls_ca_certificate, (b, pem), ca),
        call_ensures(SeppClientBuilder::tls_domain, (b, domain), named),
    ensures
        k@.api_key == Some(key@),
        k@.addr == b@.addr && k@.retry_policy == b@.retry_policy && k@.rpc_timeout == b@.rpc_timeout
            && k@.max_receive_message_bytes == b@.max_receive_message_bytes && k@.tls == b@.tls,
        p@.retry_policy == policy@,
        p@.addr == b@.addr && p@.api_key == b@.api_key && p@.rpc_timeout == b@.rpc_timeout
            && p@.max_receive_message_bytes == b@.max_receive_message_bytes && p@.tls == b@.tls,
        t@.rpc_timeout == d,
        t@.addr == b@.addr && t@.api_key == b@.api_key && t@.retry_policy == b@.retry_policy
            && t@.max_receive_message_bytes == b@.max_receive_message_bytes && t@.tls == b@.tls,
        m@.max_receive_message_bytes == Some(bytes),
        m@.addr == b@.addr && m@.api_key == b@.api_key && m@.retry_policy == b@.retry_policy
            && m@.rpc_timeout == b@.rpc_timeout && m@.tls == b@.tls,
        c@.tls == Some(config),
        same_but_for_tls(c, b),
        native@.tls is Some && same_but_for_tls(native, b),
        ca@.tls is Some && same_but_for_tls(ca, b),
        named@.tls is Some && same_but_for_tls(named, b),
        b@.tls matches Some(x) ==> native@.tls == Some(
            crate::client::builder::tls_with_native_roots(x),
        ),
        b@.tls matches Some(x) ==> ca@.tls == Some(crate::client::builder::tls_with_ca(x, pem@)),
        b@.tls matches Some(x) ==> named@.tls == Some(
            crate::client::builder::tls_with_domain(x, domain@),
        ),
        b@.tls is None ==> exists|x: ClientTlsConfig| #[trigger]
            call_ensures(<ClientTlsConfig as Default>::default, (), x) && native@.tls == Some(
                crate::client::builder::tls_with_native_roots(x),
            ),
        b@.tls is None ==> exists|x: ClientTlsConfig| #[trigger]
            call_ensures(<ClientTlsConfig as Default>::default, (), x) && ca@.tls == Some(
                crate::client::builder::tls_with_ca(x, pem@),
            ),
        b@.tls is None ==> exists|x: ClientTlsConfig| #[trigger]
            call_ensures(<ClientTlsConfig as Default>::default, (), x) && named@.tls == Some(
                crate::client::builder::tls_with_domain(x, domain@),
            ),
{
}

/// Whether two clients under configuration agree but for encryption.
pub open spec fn same_but_for_tls(a: SeppClientBuilder, b: SeppClientBuilder) -> bool {
    &&& a@.addr == b@.addr
    &&& a@.api_key == b@.api_key
    &&& a@.retry_policy == b@.retry_policy
    &&& a@.rpc_timeout == b@.rpc_timeout
    &&& a@.max_receive_message_bytes == b@.max_receive_message_bytes
}

/// What a client under configuration was asked for can be read from it.
pub proof fn a_builder_tells_what_it_is(
    b: SeppClientBuilder,
    d: Duration,
    n: Option<usize>,
    t: bool,
)
    requires
        call_ensures(SeppClientBuilder::configured_rpc_timeout, (&b,), d),
        call_ensures(SeppClientBuilder::configured_max_receive_message_bytes, (&b,), n),
        call_ensures(SeppClientBuilder::tls_enabled, (&b,), t),
    ensures
        d == b@.rpc_timeout,
        n == b@.max_receive_message_bytes,
        t <==> b@.tls is Some,
{
}

/// A client connects as it was configured, unless its API key cannot stand in a
/// header. A key that will travel without encryption is told of.
pub proof fn a_client_connects_as_it_was_configured(
    b: SeppClientBuilder,
    r: Result<ConnectPlan, ClientError>,
)
    requires
        call_ensures(SeppClientBuilder::prepare, (b,), r),
    ensures
        b@.api_key is None ==> r is Ok,
        b@.api_key matches Some(key) ==> (r is Ok <==> forall|i: int|
            0 <= i < key.len() ==> ((#[trigger] key[i]) as int >= 32 && key[i] as int != 127)
                || key[i] as int == 9),
        r matches Err(e) ==> e is InvalidApiKey,
        r matches Ok(p) ==> p.addr@ == b@.addr,
        r matches Ok(p) ==> p.tls == b@.tls,
        r matches Ok(p) ==> p.max_receive_message_bytes == b@.max_receive_message_bytes,
        r matches Ok(p) ==> (p.plaintext_key <==> b@.api_key is Some && b@.tls is None),
        r matches Ok(p) ==> (p.interceptor@ is Some <==> b@.api_key is Some),
        r matches Ok(p) ==> (b@.api_key matches Some(key) ==> p.interceptor@ == Some(
            "Bearer "@ + key,
        )),
        r matches Ok(p) ==> p.client@.retry_policy == b@.retry_policy && p.client@.rpc_timeout
            == b@.rpc_timeout,
{
    if b@.api_key is Some {
        let k = b@.api_key->0;
        assert(forall|i: int|
            0 <= i < k.len() ==> (crate::client::auth::is_header_char(#[trigger] k[i]) <==> ((k[i]
                as int >= 32 && k[i] as int != 127) || k[i] as int == 9)));
    }
}

/// A connected client goes by what it was configured with.
pub proof fn a_client_tells_what_it_is(c: SeppClient, p: &RetryPolicy, d: Duration)
    requires
        call_ensures(SeppClient::retry_policy, (&c,), p),
        call_ensures(SeppClient::rpc_timeout, (&c,), d),
    ensures
        p@ == c@.retry_policy,
        d == c@.rpc_timeout,
{
}

/// A connection is set up wherever its address is read and its name can stand in
/// a header: with five seconds to connect, and a keep-alive every half minute
/// that is to be answered within ten seconds, between calls too.
pub proof fn a_connection_is_kept_alive(
    addr: &str,
    agent: &str,
    r: Result<Endpoint, tonic::transport::Error>,
)
    requires
        call_ensures(connection, (addr, agent), r),
    ensures
        r is Ok <==> crate::client::endpoint::endpoint_of(addr@) is Some && forall|i: int|
            0 <= i < agent@.len() ==> ((#[trigger] agent@[i]) as int >= 32 && agent@[i] as int
                != 127) || agent@[i] as int == 9,
        r matches Ok(e) ==> exists|named: Endpoint, timed: Endpoint, beating: Endpoint| #[trigger]
            is_set_up(
                crate::client::endpoint::endpoint_of(addr@)->0,
                agent@,
                named,
                timed,
                beating,
                e,
            ),
{
    assert(forall|i: int|
        0 <= i < agent@.len() ==> (crate::client::auth::is_header_char(#[trigger] agent@[i])
            <==> ((agent@[i] as int >= 32 && agent@[i] as int != 127) || agent@[i] as int == 9)));
    if r is Ok {
        let first = crate::client::endpoint::endpoint_of(addr@)->0;
        let named = crate::client::endpoint::with_user_agent(
            crate::client::endpoint::with_connect_timeout(first, 5_000_000_000),
            agent@,
        );
        let beating = crate::client::endpoint::with_keep_alive_interval(named, 30_000_000_000);
        let timed = crate::client::endpoint::with_keep_alive_timeout(beating, 10_000_000_000);
        assert(is_set_up(first, agent@, named, timed, beating, r->Ok_0));
    }
}

/// Whether a connection was set up from an address, by way of these settings.
pub open spec fn is_set_up(
    first: Endpoint,
    agent: Seq<char>,
    named: Endpoint,
    timed: Endpoint,
    beating: Endpoint,
    last: Endpoint,
) -> bool {
    &&& named == crate::client::endpoint::with_user_agent(
        crate::client::endpoint::with_connect_timeout(first, 5_000_000_000),
        agent,
    )
    &&& beating == crate::client::endpoint::with_keep_alive_interval(named, 30_000_000_000)
    &&& timed == crate::client::endpoint::with_keep_alive_timeout(beating, 10_000_000_000)
    &&& last == crate::client::endpoint::with_keep_alive_while_idle(timed, true)
}

} // verus!
