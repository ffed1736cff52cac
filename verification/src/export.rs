//! Writing metrics to a backend: the request to send and how its answer is read.
use vstd::prelude::*;
use crate::model::{DbBackend, Metric};
use crate::text::{append, chars_of, dec_int, is_alphanumeric, owned, push_char, push_decimal_i64, trim_end, trim_end_char, unicode_alphanumeric};

verus! {

// ---------------------------------------------------------------------------
// InfluxDB line protocol.
// ---------------------------------------------------------------------------
/// `,key=value` for one label.
pub open spec fn influx_label(l: (String, String)) -> Seq<char> {
    seq![','] + l.0@ + seq!['='] + l.1@
}

/// All labels of a metric, in order.
pub open spec fn influx_labels(ls: Seq<(String, String)>) -> Seq<char>
    decreases ls.len(),
{
    if ls.len() == 0 {
        Seq::empty()
    } else {
        influx_labels(ls.drop_last()) + influx_label(ls.last())
    }
}

/// One line of line protocol, without its terminating newline:
/// `name,k=v,... value=<value> <timestamp_ms>`.
pub open spec fn influx_line(m: Metric) -> Seq<char> {
    m.name@ + influx_labels(m.labels@) + " value="@ + m.value@ + seq![' '] + dec_int(m.timestamp_ms as int)
}

/// The body written to InfluxDB: one newline-terminated line per metric.
pub open spec fn influx_body(ms: Seq<Metric>) -> Seq<char>
    decreases ms.len(),
{
    if ms.len() == 0 {
        Seq::empty()
    } else {
        influx_body(ms.drop_last()) + influx_line(ms.last()) + seq!['\n']
    }
}

// ---------------------------------------------------------------------------
// Prometheus text exposition format.
// ---------------------------------------------------------------------------
/// The character that stands for `c` in a metric name: itself when it is
/// alphanumeric or `_`, otherwise `_`.
pub open spec fn name_char(c: char) -> char {
    if !unicode_alphanumeric(c) && c != '_' { '_' } else { c }
}

/// A metric name with every character outside `[alphanumeric _]` replaced by `_`.
pub open spec fn sanitized(name: Seq<char>) -> Seq<char> {
    name.map_values(|c: char| name_char(c))
}

/// `key="value"` for one label.
pub open spec fn prom_label(l: (String, String)) -> Seq<char> {
    l.0@ + seq!['=', '"'] + l.1@ + seq!['"']
}

/// The labels of a metric joined by `,`.
pub open spec fn prom_labels(ls: Seq<(String, String)>) -> Seq<char>
    decreases ls.len(),
{
    if ls.len() == 0 {
        Seq::empty()
    } else if ls.len() == 1 {
        prom_label(ls[0])
    } else {
        prom_labels(ls.drop_last()) + seq![','] + prom_label(ls.last())
    }
}

/// The exposition of one metric: a `# TYPE <name> gauge` line and a sample line.
pub open spec fn prom_block(m: Metric) -> Seq<char> {
    let name = sanitized(m.name@);
    "# TYPE "@ + name + " gauge\n"@ + if m.labels@.len() == 0 {
        name + seq![' '] + m.value@ + seq!['\n']
    } else {
        name + seq!['{'] + prom_labels(m.labels@) + seq!['}', ' '] + m.value@ + seq!['\n']
    }
}

/// The body pushed to the Pushgateway.
pub open spec fn prom_body(ms: Seq<Metric>) -> Seq<char>
    decreases ms.len(),
{
    if ms.len() == 0 {
        Seq::empty()
    } else {
        prom_body(ms.drop_last()) + prom_block(ms.last())
    }
}

// ---------------------------------------------------------------------------
// Requests.
// ---------------------------------------------------------------------------
/// An HTTP POST to perform.
pub struct WriteRequest {
    pub url: String,
    pub headers: Vec<(String, String)>,
    pub body: String,
}

/// What came back from performing a `WriteRequest`.
pub enum WriteResponse {
    /// The request could not be sent; the text describes the transport error.
    SendFailed(String),
    /// The server answered; `success` tells whether the status was 2xx.
    Answered { success: bool, body: String },
}

/// The InfluxDB write endpoint for an organisation and a bucket.
pub open spec fn influx_url(url: Seq<char>, org: Seq<char>, bucket: Seq<char>) -> Seq<char> {
    trim_end_char(url, '/') + "/api/v2/write?org="@ + org + "&bucket="@ + bucket + "&precision=ms"@
}

/// The Pushgateway endpoint for a job.
pub open spec fn pushgateway_url(url: Seq<char>, job: Seq<char>) -> Seq<char> {
    trim_end_char(url, '/') + "/metrics/job/"@ + job
}

/// A header pair by its views.
pub open spec fn header_is(h: (String, String), name: Seq<char>, value: Seq<char>) -> bool {
    h.0@ == name && h.1@ == value
}

/// `r` is the request that writes `ms` to `backend`.
pub open spec fn is_write_request(backend: DbBackend, ms: Seq<Metric>, r: WriteRequest) -> bool {
    match backend {
        DbBackend::InfluxDb { url, token, org, bucket } => {
            &&& r.url@ == influx_url(url@, org@, bucket@)
            &&& r.body@ == influx_body(ms)
            &&& r.headers@.len() == 2
            &&& header_is(r.headers@[0], "Authorization"@, "Token "@ + token@)
            &&& header_is(r.headers@[1], "Content-Type"@, "text/plain; charset=utf-8"@)
        },
        DbBackend::PrometheusPushgateway { url, job, token } => {
            &&& r.url@ == pushgateway_url(url@, job@)
            &&& r.body@ == prom_body(ms)
            &&& header_is(r.headers@[0], "Content-Type"@, "text/plain; version=0.0.4; charset=utf-8"@)
            &&& match token {
                Some(t) => r.headers@.len() == 2 && header_is(r.headers@[1], "Authorization"@, "Bearer "@ + t@),
                None => r.headers@.len() == 1,
            }
        },
    }
}

/// The name that error messages give the backend.
pub open spec fn backend_label(backend: DbBackend) -> Seq<char> {
    match backend {
        DbBackend::InfluxDb { .. } => "InfluxDB"@,
        DbBackend::PrometheusPushgateway { .. } => "Prometheus Pushgateway"@,
    }
}

/// The result of a write, given what performing its request gave back.
pub open spec fn write_result(backend: DbBackend, url: Seq<char>, resp: WriteResponse) -> Result<(), Seq<char>> {
    match resp {
        WriteResponse::SendFailed(e) => Err(backend_label(backend) + " request failed: "@ + e@),
        WriteResponse::Answered { success, body } => if success {
            Ok(())
        } else {
            Err(backend_label(backend) + " write failed ("@ + url + "): "@ + body@)
        },
    }
}

// ---------------------------------------------------------------------------
// Executable code.
// ---------------------------------------------------------------------------
/// Replaces every character that is neither alphanumeric nor `_` by `_`.
pub fn sanitize_metric_name(name: &str) -> (r: String)
    ensures
        r@ == sanitized(name@),
{
    let v = chars_of(name);
    let mut out = String::new();
    let n = v.len();
    for i in 0..n
        invariant
            n == v@.len(),
            v@ == name@,
            out@ == sanitized(name@.take(i as int)),
    {
        let c = v[i];
        let keep = is_alphanumeric(c) || c == '_';
        push_char(&mut out, if keep { c } else { '_' });
        assert(name@.take(i + 1) == name@.take(i as int).push(c));
        assert(sanitized(name@.take(i + 1)) == sanitized(name@.take(i as int)).push(name_char(c)));
    }
    assert(name@.take(n as int) == name@);
    out
}

/// Appends one line of line protocol (without the newline).
pub fn push_influx_line(out: &mut String, m: &Metric)
    ensures
        final(out)@ == old(out)@ + influx_line(*m),
{
    let ghost start = out@;
    append(out, m.name.as_str());
    let n = m.labels.len();
    for i in 0..n
        invariant
            n == m.labels@.len(),
            out@ == start + m.name@ + influx_labels(m.labels@.take(i as int)),
    {
        let ghost before = out@;
        push_char(out, ',');
        append(out, m.labels[i].0.as_str());
        push_char(out, '=');
        append(out, m.labels[i].1.as_str());
        proof {
            let ls = m.labels@.take(i + 1);
            assert(ls.drop_last() == m.labels@.take(i as int));
            assert(ls.last() == m.labels@[i as int]);
            assert(out@ == before + influx_label(m.labels@[i as int]));
        }
    }
    assert(m.labels@.take(n as int) == m.labels@);
    append(out, " value=");
    append(out, m.value.as_str());
    push_char(out, ' ');
    push_decimal_i64(out, m.timestamp_ms);
    assert(out@ == start + influx_line(*m));
}

/// The line protocol body for a list of metrics.
pub fn influx_payload(metrics: &Vec<Metric>) -> (r: String)
    ensures
        r@ == influx_body(metrics@),
{
    let mut out = String::new();
    let n = metrics.len();
    for i in 0..n
        invariant
            n == metrics@.len(),
            out@ == influx_body(metrics@.take(i as int)),
    {
        push_influx_line(&mut out, &metrics[i]);
        push_char(&mut out, '\n');
        proof {
            let ms = metrics@.take(i + 1);
            assert(ms.drop_last() == metrics@.take(i as int));
            assert(ms.last() == metrics@[i as int]);
        }
    }
    assert(metrics@.take(n as int) == metrics@);
    out
}

/// Appends the exposition of one metric.
pub fn push_prom_block(out: &mut String, m: &Metric)
    ensures
        final(out)@ == old(out)@ + prom_block(*m),
{
    let ghost start = out@;
    let name = sanitize_metric_name(m.name.as_str());
    append(out, "# TYPE ");
    append(out, name.as_str());
    append(out, " gauge\n");
    let ghost head = out@;
    assert(head == start + ("# TYPE "@ + name@ + " gauge\n"@));
    let n = m.labels.len();
    if n == 0 {
        append(out, name.as_str());
        push_char(out, ' ');
        append(out, m.value.as_str());
        push_char(out, '\n');
        assert(out@ == head + (name@ + seq![' '] + m.value@ + seq!['\n']));
    } else {
        append(out, name.as_str());
        push_char(out, '{');
        let ghost opened = out@;
        for i in 0..n
            invariant
                n == m.labels@.len(),
                n > 0,
                out@ == opened + prom_labels(m.labels@.take(i as int)),
        {
            let ghost before = out@;
            if i > 0 {
                push_char(out, ',');
            }
            append(out, m.labels[i].0.as_str());
            push_char(out, '=');
            push_char(out, '"');
            append(out, m.labels[i].1.as_str());
            push_char(out, '"');
            proof {
                let ls = m.labels@.take(i + 1);
                assert(ls.drop_last() == m.labels@.take(i as int));
                assert(ls.last() == m.labels@[i as int]);
                if i == 0 {
                    assert(ls.len() == 1);
                    assert(ls[0] == m.labels@[0]);
                    assert(m.labels@.take(0) == Seq::<(String, String)>::empty());
                    assert(out@ == before + prom_label(m.labels@[0]));
                } else {
                    assert(out@ == before + (seq![','] + prom_label(m.labels@[i as int])));
                }
            }
        }
        assert(m.labels@.take(n as int) == m.labels@);
        push_char(out, '}');
        push_char(out, ' ');
        append(out, m.value.as_str());
        push_char(out, '\n');
        assert(out@ == head + (name@ + seq!['{'] + prom_labels(m.labels@) + seq!['}', ' '] + m.value@ + seq!['\n']));
    }
}

/// The text exposition body for a list of metrics.
pub fn prometheus_payload(metrics: &Vec<Metric>) -> (r: String)
    ensures
        r@ == prom_body(metrics@),
{
    let mut out = String::new();
    let n = metrics.len();
    for i in 0..n
        invariant
            n == metrics@.len(),
            out@ == prom_body(metrics@.take(i as int)),
    {
        push_prom_block(&mut out, &metrics[i]);
        proof {
            let ms = metrics@.take(i + 1);
            assert(ms.drop_last() == metrics@.take(i as int));
            assert(ms.last() == metrics@[i as int]);
        }
    }
    assert(metrics@.take(n as int) == metrics@);
    out
}

/// The InfluxDB write endpoint.
pub fn influx_write_url(url: &str, org: &str, bucket: &str) -> (r: String)
    ensures
        r@ == influx_url(url@, org@, bucket@),
{
    let mut out = trim_end(url, '/');
    append(&mut out, "/api/v2/write?org=");
    append(&mut out, org);
    append(&mut out, "&bucket=");
    append(&mut out, bucket);
    append(&mut out, "&precision=ms");
    out
}

/// The Pushgateway endpoint for a job.
pub fn pushgateway_write_url(url: &str, job: &str) -> (r: String)
    ensures
        r@ == pushgateway_url(url@, job@),
{
    let mut out = trim_end(url, '/');
    append(&mut out, "/metrics/job/");
    append(&mut out, job);
    out
}

fn header(name: &str, prefix: &str, value: &str) -> (h: (String, String))
    ensures
        h.0@ == name@,
        h.1@ == prefix@ + value@,
{
    let mut v = owned(prefix);
    append(&mut v, value);
    (owned(name), v)
}

/// The request that writes `metrics` to `backend`, or `None` when there is
/// nothing to write.
pub fn plan_write(backend: &DbBackend, metrics: &Vec<Metric>) -> (r: Option<WriteRequest>)
    ensures
        r is None <==> metrics@.len() == 0,
        r matches Some(req) ==> is_write_request(*backend, metrics@, req),
{
    if metrics.len() == 0 {
        return None;
    }
    match backend {
        DbBackend::InfluxDb { url, token, org, bucket } => {
            let mut headers: Vec<(String, String)> = Vec::new();
            headers.push(header("Authorization", "Token ", token.as_str()));
            headers.push(header("Content-Type", "text/plain; charset=utf-8", ""));
            assert("text/plain; charset=utf-8"@ + ""@ =~= "text/plain; charset=utf-8"@) by {
                reveal_strlit("");
            }
            Some(WriteRequest {
                url: influx_write_url(url.as_str(), org.as_str(), bucket.as_str()),
                headers,
                body: influx_payload(metrics),
            })
        },
        DbBackend::PrometheusPushgateway { url, job, token } => {
            let mut headers: Vec<(String, String)> = Vec::new();
            headers.push(header("Content-Type", "text/plain; version=0.0.4; charset=utf-8", ""));
            assert("text/plain; version=0.0.4; charset=utf-8"@ + ""@ =~= "text/plain; version=0.0.4; charset=utf-8"@) by {
                reveal_strlit("");
            }
            match token {
                Some(t) => {
                    headers.push(header("Authorization", "Bearer ", t.as_str()));
                },
                None => {},
            }
            Some(WriteRequest {
                url: pushgateway_write_url(url.as_str(), job.as_str()),
                headers,
                body: prometheus_payload(metrics),
            })
        },
    }
}

/// The result of a write whose request went to `url` and was answered by `resp`.
pub fn write_outcome(backend: &DbBackend, url: &str, resp: &WriteResponse) -> (r: Result<(), String>)
    ensures
        match (r, write_result(*backend, url@, *resp)) {
            (Ok(_), Ok(_)) => true,
            (Err(e), Err(t)) => e@ == t,
            _ => false,
        },
{
    let mut msg = match backend {
        DbBackend::InfluxDb { .. } => owned("InfluxDB"),
        DbBackend::PrometheusPushgateway { .. } => owned("Prometheus Pushgateway"),
    };
    match resp {
        WriteResponse::SendFailed(e) => {
            append(&mut msg, " request failed: ");
            append(&mut msg, e.as_str());
            Err(msg)
        },
        WriteResponse::Answered { success, body } => {
            if *success {
                Ok(())
            } else {
                append(&mut msg, " write failed (");
                append(&mut msg, url);
                append(&mut msg, "): ");
                append(&mut msg, body.as_str());
                Err(msg)
            }
        },
    }
}

// ---------------------------------------------------------------------------
// Laws.
// ---------------------------------------------------------------------------
/// A sanitized name has the same length, holds only alphanumeric characters
/// and `_`, and sanitizing it again changes nothing.
pub proof fn law_sanitize_is_clean_and_idempotent(name: Seq<char>)
    ensures
        sanitized(name).len() == name.len(),
        forall|i: int| 0 <= i < name.len() ==> ({
            let c = #[trigger] sanitized(name)[i];
            unicode_alphanumeric(c) || c == '_'
        }),
        sanitized(sanitized(name)) == sanitized(name),
{
    assert(sanitized(sanitized(name)) =~= sanitized(name));
}


/// Sanitizing a name keeps its length, leaves every alphanumeric character and
/// `_` where it was, and turns every other character into `_`.
pub proof fn law_sanitize_keeps_name_chars(name: Seq<char>)
    ensures
        sanitized(name).len() == name.len(),
        forall|i: int| 0 <= i < name.len() && (unicode_alphanumeric(name[i]) || name[i] == '_')
            ==> #[trigger] sanitized(name)[i] == name[i],
        forall|i: int| 0 <= i < name.len() && !(unicode_alphanumeric(name[i]) || name[i] == '_')
            ==> #[trigger] sanitized(name)[i] == '_',
{
}

/// The tag set of a line holds every label, in order: with no labels it is
/// empty, and one more label appends `,key=value` to it.
pub proof fn law_influx_labels_hold_every_label(ls: Seq<(String, String)>, l: (String, String))
    ensures
        influx_labels(Seq::<(String, String)>::empty()) == Seq::<char>::empty(),
        influx_labels(ls.push(l)) == influx_labels(ls) + seq![','] + l.0@ + seq!['='] + l.1@,
{
    assert(ls.push(l).drop_last() =~= ls);
    assert(influx_labels(ls) + seq![','] + l.0@ + seq!['='] + l.1@
        =~= influx_labels(ls) + (seq![','] + l.0@ + seq!['='] + l.1@));
}

/// The tag set has one `,key=value` per label: its length is the sum over the
/// labels of the key's and value's lengths plus two.
pub open spec fn labels_text_len(ls: Seq<(String, String)>) -> int
    decreases ls.len(),
{
    if ls.len() == 0 { 0 } else { labels_text_len(ls.drop_last()) + ls.last().0@.len() + ls.last().1@.len() + 2 }
}

/// See `labels_text_len`.
pub proof fn law_influx_labels_len(ls: Seq<(String, String)>)
    ensures
        influx_labels(ls).len() == labels_text_len(ls),
    decreases ls.len(),
{
    if ls.len() > 0 {
        law_influx_labels_len(ls.drop_last());
    }
}


/// Each metric adds its own part to a body, after those of the metrics before
/// it: a newline-terminated line for InfluxDB, a `# TYPE` line and a sample
/// line for the Pushgateway; no metrics give an empty body.
pub proof fn law_bodies_hold_every_metric(ms: Seq<Metric>, m: Metric)
    ensures
        influx_body(Seq::<Metric>::empty()) == Seq::<char>::empty(),
        prom_body(Seq::<Metric>::empty()) == Seq::<char>::empty(),
        influx_body(ms.push(m)) == influx_body(ms) + influx_line(m) + seq!['\n'],
        prom_body(ms.push(m)) == prom_body(ms) + prom_block(m),
{
    assert(ms.push(m).drop_last() =~= ms);
}

/// The Pushgateway labels are `key="value"` pairs joined by commas: one label
/// gives its pair alone, and one more label appends `,key="value"`.
pub proof fn law_prom_labels_joined(ls: Seq<(String, String)>, l: (String, String))
    ensures
        prom_labels(Seq::<(String, String)>::empty()) == Seq::<char>::empty(),
        prom_labels(seq![l]) == l.0@ + seq!['=', '"'] + l.1@ + seq!['"'],
        ls.len() > 0 ==> prom_labels(ls.push(l)) == prom_labels(ls) + seq![','] + l.0@ + seq!['=', '"'] + l.1@ + seq!['"'],
{
    assert(ls.push(l).drop_last() =~= ls);
    assert(prom_labels(ls) + seq![','] + l.0@ + seq!['=', '"'] + l.1@ + seq!['"']
        =~= prom_labels(ls) + seq![','] + (l.0@ + seq!['=', '"'] + l.1@ + seq!['"']));
}

} // verus!
