//! The authentication value of provisioning: which out-of-band value the
//! start of provisioning asks for, the random draws that make it, and its
//! sixteen bytes.
use vstd::prelude::*;
use crate::bytes::{be32_bytes, to_be32};
use crate::driver::DeviceError;
use crate::provisioning::{InputOOBAction, OOBAction, OOBSize, OutputOOBAction, Start};

verus! {

/// The most characters of an alphanumeric value.
pub const ALPHANUMERIC_MAX: usize = 8;

/// The out-of-band authentication value.
pub enum AuthValue {
    /// No out-of-band value: sixteen zero bytes.
    Zero,
    InputEvents(u32),
    OutputEvents(u32),
    InputNumeric(u32),
    OutputNumeric(u32),
    InputAlphanumeric(Vec<u8>),
    OutputAlphanumeric(Vec<u8>),
}

/// What an authentication value holds, characters as a sequence.
pub enum AuthValueView {
    Zero,
    InputEvents(u32),
    OutputEvents(u32),
    InputNumeric(u32),
    OutputNumeric(u32),
    InputAlphanumeric(Seq<u8>),
    OutputAlphanumeric(Seq<u8>),
}

impl View for AuthValue {
    type V = AuthValueView;

    open spec fn view(&self) -> AuthValueView {
        match self {
            AuthValue::Zero => AuthValueView::Zero,
            AuthValue::InputEvents(n) => AuthValueView::InputEvents(*n),
            AuthValue::OutputEvents(n) => AuthValueView::OutputEvents(*n),
            AuthValue::InputNumeric(n) => AuthValueView::InputNumeric(*n),
            AuthValue::OutputNumeric(n) => AuthValueView::OutputNumeric(*n),
            AuthValue::InputAlphanumeric(c) => AuthValueView::InputAlphanumeric(c@),
            AuthValue::OutputAlphanumeric(c) => AuthValueView::OutputAlphanumeric(c@),
        }
    }
}

/// The sixteen bytes of an authentication value: a number in the last four
/// bytes, most significant first; characters from the first byte on; zeros
/// elsewhere.
pub open spec fn auth_bytes(v: AuthValueView) -> Seq<u8> {
    match v {
        AuthValueView::Zero => Seq::new(16, |i: int| 0u8),
        AuthValueView::InputEvents(n) => Seq::new(12, |i: int| 0u8) + be32_bytes(n),
        AuthValueView::OutputEvents(n) => Seq::new(12, |i: int| 0u8) + be32_bytes(n),
        AuthValueView::InputNumeric(n) => Seq::new(12, |i: int| 0u8) + be32_bytes(n),
        AuthValueView::OutputNumeric(n) => Seq::new(12, |i: int| 0u8) + be32_bytes(n),
        AuthValueView::InputAlphanumeric(c) => c + Seq::new((16 - c.len()) as nat, |i: int| 0u8),
        AuthValueView::OutputAlphanumeric(c) => c + Seq::new((16 - c.len()) as nat, |i: int| 0u8),
    }
}

/// Whether the characters of an authentication value fit its sixteen
/// bytes.
pub open spec fn auth_fits(v: AuthValueView) -> bool {
    match v {
        AuthValueView::InputAlphanumeric(c) => c.len() <= 16,
        AuthValueView::OutputAlphanumeric(c) => c.len() <= 16,
        _ => true,
    }
}

impl AuthValue {
    /// Sixteen bytes: zeros with `chars` from the first on.
    fn chars_bytes(chars: &Vec<u8>) -> (b: [u8; 16])
        requires
            chars@.len() <= 16,
        ensures
            b@ == chars@ + Seq::new((16 - chars@.len()) as nat, |i: int| 0u8),
    {
        let mut bytes = [0u8; 16];
        let mut i: usize = 0;
        while i < chars.len()
            invariant
                i <= chars@.len() <= 16,
                forall|j: int| 0 <= j < i ==> bytes@[j] == chars@[j],
                forall|j: int| i <= j < 16 ==> bytes@[j] == 0,
            decreases chars@.len() - i,
        {
            bytes[i] = chars[i];
            i = i + 1;
        }
        assert(bytes@ =~= chars@ + Seq::new((16 - chars@.len()) as nat, |i: int| 0u8));
        bytes
    }

    /// The sixteen bytes of this value.
    pub fn get_bytes(&self) -> (b: [u8; 16])
        requires
            auth_fits(self@),
        ensures
            b@ == auth_bytes(self@),
    {
        match self {
            AuthValue::Zero => {
                let bytes = [0u8; 16];
                assert(bytes@ =~= auth_bytes(self@));
                bytes
            },
            AuthValue::InputEvents(num) | AuthValue::OutputEvents(num) | AuthValue::InputNumeric(num)
            | AuthValue::OutputNumeric(num) => {
                let n = to_be32(*num);
                let bytes = [0u8, 0, 0, 0, 0, 0, 0, 0, 0, 0, 0, 0, n[0], n[1], n[2], n[3]];
                assert(bytes@ =~= auth_bytes(self@));
                bytes
            },
            AuthValue::InputAlphanumeric(chars) | AuthValue::OutputAlphanumeric(chars) => Self::chars_bytes(chars),
        }
    }
}

/// Ten to the power `n`.
pub open spec fn pow10(n: nat) -> nat
    decreases n,
{
    if n == 0 { 1 } else { 10 * pow10((n - 1) as nat) }
}

/// What the start of provisioning asks to be drawn at random.
#[derive(PartialEq, Eq, Structural, Clone, Copy, Debug)]
pub enum AuthDraw {
    /// Nothing: the value is all zeros.
    Nothing,
    /// A count of blinks, beeps, vibrations, pushes or twists, below ten to
    /// the given size.
    PhysicalOob(u8),
    /// A number of the given count of digits.
    Numeric(u8),
    /// A string of the given count of characters.
    Alphanumeric(u8),
}

/// What to draw for the action and size of a start.
pub open spec fn spec_auth_draw(action: OOBAction, size: OOBSize) -> AuthDraw {
    match (action, size) {
        (OOBAction::Output(OutputOOBAction::Blink), OOBSize::MaximumSize(s))
        | (OOBAction::Output(OutputOOBAction::Beep), OOBSize::MaximumSize(s))
        | (OOBAction::Output(OutputOOBAction::Vibrate), OOBSize::MaximumSize(s))
        | (OOBAction::Input(InputOOBAction::Push), OOBSize::MaximumSize(s))
        | (OOBAction::Input(InputOOBAction::Twist), OOBSize::MaximumSize(s)) => AuthDraw::PhysicalOob(s),
        (OOBAction::Output(OutputOOBAction::OutputNumeric), OOBSize::MaximumSize(s))
        | (OOBAction::Input(InputOOBAction::InputNumeric), OOBSize::MaximumSize(s)) => AuthDraw::Numeric(s),
        (OOBAction::Output(OutputOOBAction::OutputAlphanumeric), OOBSize::MaximumSize(s))
        | (OOBAction::Input(InputOOBAction::InputAlphanumeric), OOBSize::MaximumSize(s)) => AuthDraw::Alphanumeric(s),
        _ => AuthDraw::Nothing,
    }
}

/// What to draw for `start`.
pub fn auth_draw(start: &Start) -> (d: AuthDraw)
    ensures
        d == spec_auth_draw(start.authentication_action, start.authentication_size),
{
    match (start.authentication_action, start.authentication_size) {
        (OOBAction::Output(OutputOOBAction::Blink), OOBSize::MaximumSize(s))
        | (OOBAction::Output(OutputOOBAction::Beep), OOBSize::MaximumSize(s))
        | (OOBAction::Output(OutputOOBAction::Vibrate), OOBSize::MaximumSize(s))
        | (OOBAction::Input(InputOOBAction::Push), OOBSize::MaximumSize(s))
        | (OOBAction::Input(InputOOBAction::Twist), OOBSize::MaximumSize(s)) => AuthDraw::PhysicalOob(s),
        (OOBAction::Output(OutputOOBAction::OutputNumeric), OOBSize::MaximumSize(s))
        | (OOBAction::Input(InputOOBAction::InputNumeric), OOBSize::MaximumSize(s)) => AuthDraw::Numeric(s),
        (OOBAction::Output(OutputOOBAction::OutputAlphanumeric), OOBSize::MaximumSize(s))
        | (OOBAction::Input(InputOOBAction::InputAlphanumeric), OOBSize::MaximumSize(s)) => AuthDraw::Alphanumeric(s),
        _ => AuthDraw::Nothing,
    }
}

/// One draw of a physical out-of-band count of at most `size` digits: the
/// candidate, when it lies strictly between zero and ten to the `size`;
/// nothing, and another draw, otherwise.
pub fn random_physical_oob(size: u8, candidate: u32) -> (r: Option<u32>)
    requires
        size <= 9,
    ensures
        r is Some <==> 0 < candidate < pow10(size as nat),
        r matches Some(v) ==> v == candidate,
{
    let mut max: u32 = 1;
    let mut i: u8 = 0;
    while i < size
        invariant
            i <= size <= 9,
            max == pow10(i as nat),
            max <= 1_000_000_000,
        decreases size - i,
    {
        assert(pow10((i + 1) as nat) == 10 * pow10(i as nat));
        assert(pow10(i as nat) <= 100_000_000) by {
            lemma_pow10_bound(i as nat);
        }
        max = max * 10;
        i = i + 1;
    }
    if candidate > 0 && candidate < max {
        Some(candidate)
    } else {
        None
    }
}

/// Ten to a power below nine is at most a hundred million.
proof fn lemma_pow10_bound(n: nat)
    requires
        n < 9,
    ensures
        pow10(n) <= 100_000_000,
{
    reveal_with_fuel(pow10, 9);
    assert(pow10(0) == 1 && pow10(1) == 10 && pow10(2) == 100 && pow10(3) == 1000 && pow10(4) == 10000);
    assert(pow10(5) == 100000 && pow10(6) == 1000000 && pow10(7) == 10000000 && pow10(8) == 100000000);
}

/// One draw of a number of `size` digits: the candidate, when it is below
/// ten to the `size`; nothing, and another draw, otherwise. A size outside
/// one to eight gives zero at once.
pub fn random_numeric(size: u8, candidate: u32) -> (r: Option<u32>)
    ensures
        1 <= size <= 8 ==> (r is Some <==> candidate < pow10(size as nat)) && (r matches Some(v) ==> v == candidate),
        !(1 <= size <= 8) ==> r == Some(0u32),
{
    proof {
        reveal_with_fuel(pow10, 9);
    }
    let limit: u32 = if size == 1 {
        10
    } else if size == 2 {
        100
    } else if size == 3 {
        1_000
    } else if size == 4 {
        10_000
    } else if size == 5 {
        100_000
    } else if size == 6 {
        1_000_000
    } else if size == 7 {
        10_000_000
    } else if size == 8 {
        100_000_000
    } else {
        return Some(0);
    };
    if candidate < limit {
        Some(candidate)
    } else {
        None
    }
}

/// Whether a drawn byte is taken as a character: `@` and the capital
/// letters, or a digit.
pub open spec fn alphanumeric_char(c: u8) -> bool {
    (64 <= c <= 90) || (48 <= c <= 57)
}

/// Whether a drawn byte is taken as a character.
pub fn alphanumeric_accepts(candidate: u8) -> (b: bool)
    ensures
        b == alphanumeric_char(candidate),
{
    (candidate >= 64 && candidate <= 90) || (candidate >= 48 && candidate <= 57)
}

/// Whether drawing a string of `size` characters is done, given the
/// characters taken so far: a string of none is empty at once; otherwise
/// characters are taken until one more than eight would be held, which is
/// refused.
pub fn random_alphanumeric(size: u8, taken: &Vec<u8>) -> (r: Option<Result<Vec<u8>, DeviceError>>)
    ensures
        size == 0 ==> (r matches Some(Ok(v)) && v@.len() == 0),
        size != 0 && taken@.len() > ALPHANUMERIC_MAX ==> r == Some(Err::<Vec<u8>, DeviceError>(DeviceError::InsufficientBuffer)),
        size != 0 && taken@.len() <= ALPHANUMERIC_MAX ==> r is None,
{
    if size == 0 {
        Some(Ok(Vec::new()))
    } else if taken.len() > ALPHANUMERIC_MAX {
        Some(Err(DeviceError::InsufficientBuffer))
    } else {
        None
    }
}

/// The authentication value that `start` asks for, made of the values
/// drawn for it: `number` for counts and numbers, `chars` for strings.
pub open spec fn spec_auth_value(start: Start, number: u32, chars: Result<Seq<u8>, DeviceError>) -> Result<
    AuthValueView,
    DeviceError,
> {
    let output = start.authentication_action is Output;
    match spec_auth_draw(start.authentication_action, start.authentication_size) {
        AuthDraw::Nothing => Ok(AuthValueView::Zero),
        AuthDraw::PhysicalOob(_) => Ok(
            if output { AuthValueView::OutputEvents(number) } else { AuthValueView::InputEvents(number) },
        ),
        AuthDraw::Numeric(_) => Ok(
            if output { AuthValueView::OutputNumeric(number) } else { AuthValueView::InputNumeric(number) },
        ),
        AuthDraw::Alphanumeric(_) => match chars {
            Ok(c) => Ok(
                if output { AuthValueView::OutputAlphanumeric(c) } else { AuthValueView::InputAlphanumeric(c) },
            ),
            Err(e) => Err(e),
        },
    }
}

/// Whether `number` is one that drawing for `start` gives: a count of
/// events strictly between zero and ten to the size (of at most nine
/// digits), a number below ten to the size (zero for a size outside one to
/// eight); any number when no number is drawn.
pub open spec fn number_drawable(start: Start, number: u32) -> bool {
    match spec_auth_draw(start.authentication_action, start.authentication_size) {
        AuthDraw::PhysicalOob(s) => s <= 9 && 0 < number < pow10(s as nat),
        AuthDraw::Numeric(s) => if 1 <= s <= 8 { number < pow10(s as nat) } else { number == 0 },
        _ => true,
    }
}

/// Whether `number` is one that drawing for `start` gives.
pub fn number_fits(start: &Start, number: u32) -> (b: bool)
    ensures
        b == number_drawable(*start, number),
{
    match auth_draw(start) {
        AuthDraw::PhysicalOob(s) => s <= 9 && random_physical_oob(s, number).is_some(),
        AuthDraw::Numeric(s) => match random_numeric(s, number) {
            Some(v) => v == number,
            None => false,
        },
        _ => true,
    }
}

/// Whether the authentication value `v` made for `start` lies in the range
/// its draw gives: counts of events strictly between zero and ten to the
/// size, numbers below ten to the size.
pub open spec fn auth_value_in_range(start: Start, v: AuthValueView) -> bool {
    match start.authentication_size {
        OOBSize::MaximumSize(s) => match v {
            AuthValueView::OutputEvents(n) => 0 < n < pow10(s as nat),
            AuthValueView::InputEvents(n) => 0 < n < pow10(s as nat),
            AuthValueView::OutputNumeric(n) => 1 <= s <= 8 ==> n < pow10(s as nat),
            AuthValueView::InputNumeric(n) => 1 <= s <= 8 ==> n < pow10(s as nat),
            _ => true,
        },
        OOBSize::NotSupported => v == AuthValueView::Zero,
    }
}

/// The view of a drawn string.
pub open spec fn chars_view(chars: &Result<Vec<u8>, DeviceError>) -> Result<Seq<u8>, DeviceError> {
    match chars {
        Ok(v) => Ok(v@),
        Err(e) => Err(*e),
    }
}

/// The authentication value that `start` asks for, made of what was drawn
/// for it (see [`auth_draw`]); `number` must be one that the draw gives
/// (see [`number_fits`]).
pub fn determine_auth_value(start: &Start, number: u32, chars: Result<Vec<u8>, DeviceError>) -> (r: Result<
    AuthValue,
    DeviceError,
>)
    requires
        number_drawable(*start, number),
    ensures
        r matches Ok(v) ==> auth_value_in_range(*start, v@),
        match (r, spec_auth_value(*start, number, chars_view(&chars))) {
            (Ok(v), Ok(w)) => v@ == w,
            (Err(e), Err(f)) => e == f,
            _ => false,
        },
{
    match (start.authentication_action, start.authentication_size) {
        (OOBAction::Output(OutputOOBAction::Blink), OOBSize::MaximumSize(_))
        | (OOBAction::Output(OutputOOBAction::Beep), OOBSize::MaximumSize(_))
        | (OOBAction::Output(OutputOOBAction::Vibrate), OOBSize::MaximumSize(_)) => Ok(AuthValue::OutputEvents(number)),
        (OOBAction::Input(InputOOBAction::Push), OOBSize::MaximumSize(_))
        | (OOBAction::Input(InputOOBAction::Twist), OOBSize::MaximumSize(_)) => Ok(AuthValue::InputEvents(number)),
        (OOBAction::Output(OutputOOBAction::OutputNumeric), OOBSize::MaximumSize(_)) => Ok(AuthValue::OutputNumeric(number)),
        (OOBAction::Input(InputOOBAction::InputNumeric), OOBSize::MaximumSize(_)) => Ok(AuthValue::InputNumeric(number)),
        (OOBAction::Output(OutputOOBAction::OutputAlphanumeric), OOBSize::MaximumSize(_)) => match chars {
            Ok(c) => Ok(AuthValue::OutputAlphanumeric(c)),
            Err(e) => Err(e),
        },
        (OOBAction::Input(InputOOBAction::InputAlphanumeric), OOBSize::MaximumSize(_)) => match chars {
            Ok(c) => Ok(AuthValue::InputAlphanumeric(c)),
            Err(e) => Err(e),
        },
        _ => Ok(AuthValue::Zero),
    }
}


/// The sixteen bytes of an authentication value: all zero for none; for a
/// count or number, twelve zero bytes and the number most significant byte
/// first; for characters, the characters then zeros.
pub proof fn lemma_auth_bytes_layout(v: AuthValueView)
    requires
        auth_fits(v),
    ensures
        auth_bytes(v).len() == 16,
        v is Zero ==> forall|i: int| 0 <= i < 16 ==> #[trigger] auth_bytes(v)[i] == 0,
        (match v {
            AuthValueView::InputEvents(n) => Some(n),
            AuthValueView::OutputEvents(n) => Some(n),
            AuthValueView::InputNumeric(n) => Some(n),
            AuthValueView::OutputNumeric(n) => Some(n),
            _ => None::<u32>,
        }) matches Some(n) ==> {
            let b = auth_bytes(v);
            &&& forall|i: int| 0 <= i < 12 ==> #[trigger] b[i] == 0
            &&& (b[12] as int) * 0x100_0000 + (b[13] as int) * 0x1_0000 + (b[14] as int) * 0x100 + (b[15] as int) == n
        },
        (match v {
            AuthValueView::InputAlphanumeric(c) => Some(c),
            AuthValueView::OutputAlphanumeric(c) => Some(c),
            _ => None::<Seq<u8>>,
        }) matches Some(c) ==> {
            let b = auth_bytes(v);
            &&& forall|i: int| 0 <= i < c.len() ==> #[trigger] b[i] == c[i]
            &&& forall|i: int| c.len() <= i < 16 ==> #[trigger] b[i] == 0
        },
{
    match v {
        AuthValueView::InputEvents(n) => crate::bytes::lemma_be32_roundtrip(n),
        AuthValueView::OutputEvents(n) => crate::bytes::lemma_be32_roundtrip(n),
        AuthValueView::InputNumeric(n) => crate::bytes::lemma_be32_roundtrip(n),
        AuthValueView::OutputNumeric(n) => crate::bytes::lemma_be32_roundtrip(n),
        _ => {},
    }
}

} // verus!
