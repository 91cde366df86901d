use vstd::prelude::*;
use vstd::string::*;
use crate::device::{Device, DeviceView};

verus! {

/// The character of a decimal digit.
pub open spec fn digit_char(d: nat) -> char {
    (((d % 10) + 48) as u8) as char
}

/// A number written in decimal, without leading zeros.
pub open spec fn decimal_of(n: nat) -> Seq<char>
    decreases n,
{
    if n < 10 {
        seq![digit_char(n)]
    } else {
        decimal_of(n / 10).push(digit_char(n % 10))
    }
}

/// The text line that shows one device.
pub open spec fn line_of(d: DeviceView) -> Seq<char> {
    "hw="@ + d.hw + " sn="@ + d.sn + " version="@ + d.version + " uptime="@ + decimal_of(
        d.uptime_seconds as nat,
    ) + " seen="@ + decimal_of(d.unix_epoch as nat) + " custom="@ + d.custom
}

/// Relies on `String::push`: the character is added at the end.
#[verifier::external_body]
fn push_char(s: &mut String, c: char)
    ensures
        final(s)@ == old(s)@.push(c),
{
    s.push(c);
}

/// Writes `n` in decimal, without leading zeros.
pub fn decimal_text(n: u64) -> (r: String)
    ensures
        r@ == decimal_of(n as nat),
{
    let mut digits: Vec<char> = Vec::new();
    let mut m: u64 = n;
    while m >= 10
        invariant
            decimal_of(n as nat) == decimal_of(m as nat) + digits@.reverse(),
        decreases m,
    {
        let c = ((m % 10) as u8 + 48u8) as char;
        assert(c == digit_char((m % 10) as nat));
        let ghost old_digits = digits@;
        digits.push(c);
        assert(decimal_of(m as nat) == decimal_of((m / 10) as nat).push(c));
        assert(digits@.reverse() =~= seq![c] + old_digits.reverse());
        assert(decimal_of(m as nat) + old_digits.reverse() =~= decimal_of((m / 10) as nat) + (seq![
            c,
        ] + old_digits.reverse()));
        m = m / 10;
    }
    let mut r = String::new();
    let first = ((m as u8) + 48u8) as char;
    push_char(&mut r, first);
    assert(r@ =~= decimal_of(m as nat));
    let mut i: usize = digits.len();
    while i > 0
        invariant
            i <= digits.len(),
            decimal_of(n as nat) == decimal_of(m as nat) + digits@.reverse(),
            r@ == decimal_of(m as nat) + digits@.subrange(i as int, digits@.len() as int).reverse(),
        decreases i,
    {
        i = i - 1;
        let ghost before = r@;
        push_char(&mut r, digits[i]);
        assert(digits@.subrange(i as int, digits@.len() as int).reverse() =~= digits@.subrange(
            i as int + 1,
            digits@.len() as int,
        ).reverse().push(digits@[i as int]));
        assert(r@ =~= decimal_of(m as nat) + digits@.subrange(i as int, digits@.len() as int).reverse());
    }
    assert(digits@.subrange(0, digits@.len() as int) =~= digits@);
    r
}

/// A view that shows each device as one line of text.
pub struct SimpleConsoleUi {}

impl SimpleConsoleUi {
    /// The line that shows one device.
    pub fn line(&self, d: &Device) -> (r: String)
        ensures
            r@ == line_of(d@),
    {
        let mut r = String::from_str("hw=");
        r.append(d.hw.as_str());
        r.append(" sn=");
        r.append(d.sn.as_str());
        r.append(" version=");
        r.append(d.version.as_str());
        r.append(" uptime=");
        let uptime = decimal_text(d.uptime_seconds);
        r.append(uptime.as_str());
        r.append(" seen=");
        let seen = decimal_text(d.unix_epoch);
        r.append(seen.as_str());
        r.append(" custom=");
        r.append(d.custom.as_str());
        r
    }

    /// The lines that show a batch of devices, one per device, in order.
    pub fn render(&self, devices: &[Device]) -> (r: Vec<String>)
        ensures
            r@.len() == devices@.len(),
            forall|i: int| 0 <= i < devices@.len() ==> #[trigger] r@[i]@ == line_of(devices@[i]@),
    {
        let mut r: Vec<String> = Vec::new();
        let mut i: usize = 0;
        while i < devices.len()
            invariant
                i <= devices@.len(),
                r@.len() == i,
                forall|j: int| 0 <= j < i ==> #[trigger] r@[j]@ == line_of(devices@[j]@),
            decreases devices@.len() - i,
        {
            let l = self.line(&devices[i]);
            r.push(l);
            i = i + 1;
        }
        r
    }
}

} // verus!
