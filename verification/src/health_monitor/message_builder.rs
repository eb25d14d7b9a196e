//! The health report: one line per service, and a status code with one bit per
//! service that is up.

use vstd::prelude::*;

use crate::health_monitor::config_builder::services_view;
use crate::status_checker::services::{Service, ServiceView};

verus! {

/// Two to the power `e`.
pub open spec fn two_pow(e: nat) -> nat
    decreases e,
{
    if e == 0 {
        1
    } else {
        2 * two_pow((e - 1) as nat)
    }
}

/// The status code of a list of health results: bit `i` is set when service
/// `i` is up.
pub open spec fn health_code(oks: Seq<bool>) -> int
    decreases oks.len(),
{
    if oks.len() == 0 {
        0
    } else {
        health_code(oks.drop_last()) + if oks.last() {
            two_pow((oks.len() - 1) as nat) as int
        } else {
            0
        }
    }
}

/// Whether every result is up.
pub open spec fn all_up(oks: Seq<bool>) -> bool {
    forall|i: int| 0 <= i < oks.len() ==> oks[i]
}

/// The first line of every report.
pub open spec fn report_header() -> Seq<char> {
    "🐋 Here is an update of the accessible web services and their status:\n"@
}

/// The dot that marks a service as up or down.
pub open spec fn status_emoji(ok: bool) -> Seq<char> {
    if ok {
        "🟢"@
    } else {
        "🔴"@
    }
}

/// The words that say whether a service is up.
pub open spec fn status_text(ok: bool) -> Seq<char> {
    if ok {
        "Online and ready to go"@
    } else {
        "Offline 💀"@
    }
}

/// The report line of one service; a service that is down is named with its URL.
pub open spec fn status_line(s: ServiceView, ok: bool) -> Seq<char> {
    if ok {
        status_emoji(ok) + " "@ + s.service_type.name() + " - "@ + status_text(ok) + "\n"@
    } else {
        status_emoji(ok) + " "@ + s.service_type.name() + " - "@ + status_text(ok)
            + " Check this service on "@ + s.url + "\n"@
    }
}

/// The report lines of a list of services, in order.
pub open spec fn report_lines(services: Seq<ServiceView>, oks: Seq<bool>) -> Seq<char>
    decreases services.len(),
{
    if services.len() == 0 {
        Seq::empty()
    } else {
        report_lines(services.drop_last(), oks.take(services.len() - 1)) + status_line(
            services.last(),
            oks[services.len() - 1],
        )
    }
}

/// The report lines of two lists, one after the other, are the lines of the
/// first list followed by those of the second.
pub proof fn lemma_report_lines_append(a: Seq<ServiceView>, x: Seq<bool>, b: Seq<ServiceView>, y: Seq<bool>)
    requires
        a.len() == x.len(),
        b.len() == y.len(),
    ensures
        report_lines(a + b, x + y) == report_lines(a, x) + report_lines(b, y),
    decreases b.len(),
{
    if b.len() == 0 {
        assert(a + b =~= a);
        assert(x + y =~= x);
        assert(report_lines(a, x) + report_lines(b, y) =~= report_lines(a, x));
    } else {
        let n = a.len() + b.len();
        let b1 = b.drop_last();
        let y1 = y.take(b.len() - 1);
        assert((a + b).drop_last() =~= a + b1);
        assert((x + y).take(n - 1) =~= x + y1);
        assert((a + b).last() == b.last());
        assert((x + y)[n - 1] == y[b.len() - 1]);
        lemma_report_lines_append(a, x, b1, y1);
        assert(report_lines(a + b, x + y) == report_lines(a + b1, x + y1) + status_line(
            b.last(),
            y[b.len() - 1],
        ));
        assert(report_lines(b, y) == report_lines(b1, y1) + status_line(b.last(), y[b.len() - 1]));
        assert(report_lines(a, x) + report_lines(b1, y1) + status_line(b.last(), y[b.len() - 1])
            =~= report_lines(a, x) + (report_lines(b1, y1) + status_line(b.last(), y[b.len() - 1])));
    }
}

/// Line `i` of the report is about service `i` alone: the lines of the
/// services before it, then a green "Online and ready to go" line with its
/// name when it is up, or a red "Offline 💀" line with its name and its URL
/// when it is down, then the lines of the services after it.
pub proof fn lemma_report_line_at(services: Seq<ServiceView>, oks: Seq<bool>, i: int)
    requires
        services.len() == oks.len(),
        0 <= i < services.len(),
    ensures
        report_lines(services, oks) == report_lines(services.take(i), oks.take(i)) + (if oks[i] {
            "🟢"@ + " "@ + services[i].service_type.name() + " - "@ + "Online and ready to go"@ + "\n"@
        } else {
            "🔴"@ + " "@ + services[i].service_type.name() + " - "@ + "Offline 💀"@
                + " Check this service on "@ + services[i].url + "\n"@
        }) + report_lines(services.skip(i + 1), oks.skip(i + 1)),
{
    let one = seq![services[i]];
    let bit = seq![oks[i]];
    assert(services =~= services.take(i) + (one + services.skip(i + 1)));
    assert(oks =~= oks.take(i) + (bit + oks.skip(i + 1)));
    lemma_report_lines_append(one, bit, services.skip(i + 1), oks.skip(i + 1));
    lemma_report_lines_append(
        services.take(i),
        oks.take(i),
        one + services.skip(i + 1),
        bit + oks.skip(i + 1),
    );
    assert(one.drop_last() =~= Seq::<ServiceView>::empty());
    assert(one.last() == services[i]);
    assert(bit[0] == oks[i]);
    assert(report_lines(one.drop_last(), bit.take(0)) == Seq::<char>::empty());
    assert(report_lines(one, bit) == report_lines(one.drop_last(), bit.take(0)) + status_line(
        services[i],
        oks[i],
    ));
    assert(report_lines(one, bit) =~= status_line(services[i], oks[i]));
}

/// A health report: its text, and the status code of the results.
pub struct HealthStatus {
    pub content: String,
    pub code: i32,
}

/// The status code lies in `0 .. 2^n`, and it is `2^n - 1`, every bit set,
/// exactly when every service is up.
pub proof fn lemma_health_code_range(oks: Seq<bool>)
    ensures
        0 <= health_code(oks) <= two_pow(oks.len()) - 1,
        health_code(oks) == two_pow(oks.len()) - 1 <==> all_up(oks),
    decreases oks.len(),
{
    if oks.len() > 0 {
        let init = oks.drop_last();
        lemma_health_code_range(init);
        assert(two_pow(oks.len()) == 2 * two_pow(init.len()));
        if all_up(oks) {
            assert(all_up(init));
        } else if all_up(init) {
            assert(!oks.last()) by {
                if oks.last() {
                    assert forall|i: int| 0 <= i < oks.len() implies oks[i] by {
                        if i < init.len() {
                            assert(init[i] == oks[i]);
                        }
                    }
                }
            }
        } else {
            let j = choose|j: int| 0 <= j < init.len() && !init[j];
            assert(!oks[j]);
        }
    }
}

/// Bit `i` of the status code is set exactly when service `i` is up.
pub proof fn lemma_health_code_bit(oks: Seq<bool>, i: int)
    requires
        0 <= i < oks.len(),
    ensures
        (health_code(oks) / two_pow(i as nat) as int) % 2 == if oks[i] {
            1int
        } else {
            0int
        },
    decreases oks.len(),
{
    let n = oks.len();
    let init = oks.drop_last();
    lemma_health_code_range(init);
    lemma_two_pow_pos(i as nat);
    if i == n - 1 {
        let p = two_pow(i as nat) as int;
        let low = health_code(init);
        assert(init.len() == i);
        assert(0 <= low < p);
        if oks[i] {
            lemma_div_low(low, p, 1);
        } else {
            lemma_div_low(low, p, 0);
        }
    } else {
        assert(init[i] == oks[i]);
        lemma_health_code_bit(init, i);
        lemma_two_pow_split(i as nat, (n - 1 - i) as nat);
        let p = two_pow(i as nat) as int;
        let q = two_pow((n - 1 - i) as nat) as int;
        let add = if oks.last() { p * q } else { 0 };
        assert(health_code(oks) == health_code(init) + add);
        lemma_two_pow_pos((n - 1 - i) as nat);
        lemma_two_pow_even((n - 1 - i) as nat);
        lemma_add_high(health_code(init), p, if oks.last() { q } else { 0 });
    }
}

proof fn lemma_two_pow_pos(e: nat)
    ensures
        two_pow(e) >= 1,
    decreases e,
{
    if e > 0 {
        lemma_two_pow_pos((e - 1) as nat);
    }
}

proof fn lemma_two_pow_even(e: nat)
    requires
        e > 0,
    ensures
        two_pow(e) % 2 == 0,
{
}

proof fn lemma_two_pow_split(a: nat, b: nat)
    ensures
        two_pow(a + b) == two_pow(a) * two_pow(b),
    decreases b,
{
    if b > 0 {
        let b1 = (b - 1) as nat;
        lemma_two_pow_split(a, b1);
        let x = two_pow(a);
        let y = two_pow(b1);
        assert(two_pow(a + b) == 2 * two_pow(a + b1));
        assert(two_pow(b) == 2 * y);
        assert(two_pow(a + b1) == x * y);
        assert(x * (2 * y) == 2 * (x * y)) by (nonlinear_arith);
        assert(two_pow(a) * two_pow(b) == x * (2 * y));
    } else {
        assert(a + b == a);
        assert(two_pow(b) == 1);
        let x = two_pow(a);
        assert(x * 1 == x) by (nonlinear_arith);
    }
}

proof fn lemma_div_low(low: int, p: int, b: int)
    requires
        0 <= low < p,
        b == 0 || b == 1,
    ensures
        ((low + b * p) / p) % 2 == b,
{
    assert((low + b * p) / p == b) by (nonlinear_arith)
        requires
            0 <= low < p,
            b == 0 || b == 1,
    ;
}

proof fn lemma_add_high(low: int, p: int, q: int)
    requires
        p >= 1,
        low >= 0,
        q % 2 == 0,
        q >= 0,
    ensures
        ((low + p * q) / p) % 2 == (low / p) % 2,
{
    assert((low + p * q) / p == low / p + q) by (nonlinear_arith)
        requires
            p >= 1,
            low >= 0,
            q >= 0,
    ;
    assert((low / p + q) % 2 == (low / p) % 2) by (nonlinear_arith)
        requires
            q % 2 == 0,
    ;
}

fn get_status_emoji(is_healthy: bool) -> (s: String)
    ensures
        s@ == status_emoji(is_healthy),
{
    if is_healthy {
        return String::from_str("🟢");
    }
    return String::from_str("🔴");
}

fn get_nl_text(is_healthy: bool) -> (s: String)
    ensures
        s@ == status_text(is_healthy),
{
    if is_healthy {
        return String::from_str("Online and ready to go");
    }
    String::from_str("Offline 💀")
}

/// Whether no service from position 31 on is up: then the status code fits
/// in 31 bits.
pub open spec fn fits_code(oks: Seq<bool>) -> bool {
    forall|i: int| 31 <= i < oks.len() ==> !oks[i]
}

/// When no service from position 31 on is up, the status code lies in
/// `0 .. 2^31`.
pub proof fn lemma_health_code_fits(oks: Seq<bool>)
    requires
        fits_code(oks),
    ensures
        0 <= health_code(oks) <= 0x7fff_ffff,
    decreases oks.len(),
{
    if oks.len() <= 31 {
        lemma_health_code_range(oks);
        lemma_two_pow_mono(oks.len(), 31);
        assert(two_pow(31) == 0x8000_0000) by {
            reveal_with_fuel(two_pow, 32);
        }
    } else {
        let init = oks.drop_last();
        assert(!oks[oks.len() - 1]);
        assert(fits_code(init)) by {
            assert forall|i: int| 31 <= i < init.len() implies !#[trigger] init[i] by {
                assert(init[i] == oks[i]);
            }
        }
        lemma_health_code_fits(init);
    }
}

/// The health report of `services`, where `okay[i]` says whether service `i`
/// answered its health check as a healthy service of its kind: the header,
/// then one line per service in order, and the status code with bit `i` set
/// when service `i` is up. (A service up from position 31 on would overflow
/// the code.)
pub fn build_health_message(services: &Vec<Service>, okay: &Vec<bool>) -> (status: HealthStatus)
    requires
        okay@.len() == services@.len(),
        fits_code(okay@),
    ensures
        status.content@ == report_header() + report_lines(services_view(services@), okay@),
        status.code == health_code(okay@),
{
    let ghost sv = services_view(services@);
    let mut content = String::from_str(
        "🐋 Here is an update of the accessible web services and their status:\n",
    );
    let mut status_code: i64 = 0;
    let mut bit: i64 = 1;
    let mut index: usize = 0;
    while index < services.len()
        invariant
            sv == services_view(services@),
            okay@.len() == services@.len(),
            fits_code(okay@),
            index <= services@.len(),
            index <= 31 ==> bit == two_pow(index as nat),
            1 <= bit <= 0x8000_0000,
            status_code == health_code(okay@.take(index as int)),
            content@ == report_header() + report_lines(sv.take(index as int), okay@.take(index as int)),
        decreases services@.len() - index,
    {
        let service = &services[index];
        let is_okay = okay[index];
        proof {
            assert(sv.take(index + 1).drop_last() =~= sv.take(index as int));
            assert(okay@.take(index + 1).drop_last() =~= okay@.take(index as int));
            assert(okay@.take(index + 1).take(index as int) =~= okay@.take(index as int));
            assert(sv.take(index + 1).last() == service@);
            let ghost prefix = okay@.take(index + 1);
            assert(fits_code(prefix)) by {
                assert forall|i: int| 31 <= i < prefix.len() implies !#[trigger] prefix[i] by {
                    assert(prefix[i] == okay@[i]);
                }
            }
            lemma_health_code_fits(prefix);
            lemma_health_code_range(okay@.take(index as int));
        }
        let emoji = get_status_emoji(is_okay);
        let text = get_nl_text(is_okay);
        let name = service.get_type().to_string();
        let mut line = emoji;
        line.append(" ");
        line.append(name.as_str());
        line.append(" - ");
        line.append(text.as_str());
        if is_okay {
            status_code = status_code + bit;
        } else {
            line.append(" Check this service on ");
            line.append(service.get_url().as_str());
        }
        line.append("\n");
        content.append(line.as_str());
        proof {
            assert(content@ =~= report_header() + report_lines(
                sv.take(index + 1),
                okay@.take(index + 1),
            ));
        }
        if index < 31 {
            proof {
                lemma_two_pow_mono(index as nat, 30);
                assert(two_pow(30) == 0x4000_0000) by {
                    reveal_with_fuel(two_pow, 31);
                }
            }
            bit = bit * 2;
        }
        index += 1;
    }
    proof {
        assert(sv.take(index as int) =~= sv);
        assert(okay@.take(index as int) =~= okay@);
        lemma_health_code_fits(okay@);
    }
    HealthStatus { content, code: status_code as i32 }
}

/// Powers of two grow with the exponent.
pub proof fn lemma_two_pow_mono(a: nat, b: nat)
    requires
        a <= b,
    ensures
        two_pow(a) <= two_pow(b),
    decreases b,
{
    if a < b {
        lemma_two_pow_mono(a, (b - 1) as nat);
    }
}

} // verus!
