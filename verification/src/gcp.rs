use vstd::prelude::*;
use crate::error::Error;
use crate::time::{
    clock_range, epoch_to_rfc3339, in_calendar, lemma_seconds_between_after_plus,
    rfc3339_utc_seconds, seconds_between, whole_seconds_between, Instant,
};

verus! {

/// An integer as it comes over the wire: a number format may hand it out as
/// signed or as unsigned.
#[derive(Debug, Clone, Copy, PartialEq, Eq, Structural)]
pub enum WireInteger {
    Signed(i64),
    Unsigned(u64),
}

impl WireInteger {
    /// The integer that was sent.
    pub open spec fn value(self) -> int {
        match self {
            WireInteger::Signed(v) => v as int,
            WireInteger::Unsigned(v) => v as int,
        }
    }
}

/// The seconds since the epoch that a wire integer stands for: itself, if it
/// fits 64 bits with a sign.
pub open spec fn epoch_seconds_of(n: WireInteger) -> Option<i64> {
    if n.value() <= i64::MAX {
        Some(n.value() as i64)
    } else {
        None
    }
}

/// Decodes a timestamp sent as seconds since the epoch. An integer above
/// `i64::MAX` is refused with `TimestampOutOfRange`.
pub fn epoch_seconds(n: WireInteger) -> (seconds: Result<i64, Error>)
    ensures
        match epoch_seconds_of(n) {
            Some(expected) => seconds == Ok::<i64, Error>(expected),
            None => seconds matches Err(Error::TimestampOutOfRange),
        },
{
    match n {
        WireInteger::Signed(v) => Ok(v),
        WireInteger::Unsigned(v) => {
            if v <= i64::MAX as u64 {
                Ok(v as i64)
            } else {
                Err(Error::TimestampOutOfRange)
            }
        },
    }
}

/// The date that a timestamp on the wire is written as: that of its seconds,
/// where they fit 64 bits with a sign and the calendar can hold them.
pub open spec fn wire_timestamp_text(n: WireInteger) -> Option<Seq<char>> {
    match epoch_seconds_of(n) {
        Some(seconds) => rfc3339_utc_seconds(seconds as int),
        None => None,
    }
}

/// Whether an outcome is the one owed to a text that may not exist: the text,
/// or `TimestampOutOfRange`.
pub open spec fn text_or_out_of_range(expected: Option<Seq<char>>, text: Result<String, Error>) -> bool {
    match expected {
        Some(expected) => text matches Ok(t) && t@ == expected,
        None => text matches Err(Error::TimestampOutOfRange),
    }
}

/// Turns a timestamp sent as seconds since the epoch into an RFC 3339 date
/// and time in UTC, to the second.
pub fn timestamp_to_iso(n: WireInteger) -> (text: Result<String, Error>)
    ensures
        text_or_out_of_range(wire_timestamp_text(n), text),
        in_calendar(n.value()) ==> text is Ok,
{
    match epoch_seconds(n) {
        Ok(seconds) => epoch_to_rfc3339(seconds),
        Err(e) => Err(e),
    }
}

/// An access token for Google Cloud with the date at which it lapses.
#[derive(Debug, PartialEq, Eq)]
pub struct GcpAccessToken {
    /// When the token lapses: RFC 3339, UTC, to the second.
    pub expiry: String,
    pub token: String,
    /// Seconds the token has left. For the caller's own scheduling; not part
    /// of what goes to Kubernetes.
    pub token_ttl: u64,
}

/// What an access token holds, as plain values.
pub struct GcpAccessTokenView {
    pub expiry: Seq<char>,
    pub token: Seq<char>,
    pub token_ttl: u64,
}

impl View for GcpAccessToken {
    type V = GcpAccessTokenView;

    open spec fn view(&self) -> GcpAccessTokenView {
        GcpAccessTokenView {
            expiry: self.expiry@,
            token: self.token@,
            token_ttl: self.token_ttl,
        }
    }
}

/// A token as the cloud SDK hands it out: the token, and when it lapses, if
/// the SDK says so.
#[derive(Debug, Clone)]
pub struct SdkToken {
    pub token: String,
    pub expires_at: Option<Instant>,
}

impl SdkToken {
    /// The expiry, where there is one, is a well-formed instant.
    pub open spec fn wf(&self) -> bool {
        self.expires_at matches Some(at) ==> at.wf()
    }
}

/// Seconds given to a token that comes without an expiry: fifty minutes.
pub const DEFAULT_TOKEN_LIFETIME_SECONDS: u64 = 3000;

/// When a token of the SDK lapses: when the SDK says, else fifty minutes after
/// `now`. `None` where that lies beyond the last countable second.
pub open spec fn sdk_expiry(expires_at: Option<Instant>, now: Instant) -> Option<Instant> {
    match expires_at {
        Some(at) => Some(at),
        None => now.plus_seconds_spec(DEFAULT_TOKEN_LIFETIME_SECONDS),
    }
}

/// Whether the expiry of a token of the SDK, made at `now`, lies inside the
/// calendar, so that it can be written as a date.
pub open spec fn sdk_expiry_in_calendar(expires_at: Option<Instant>, now: Instant) -> bool {
    sdk_expiry(expires_at, now) matches Some(expiry) && in_calendar(expiry.secs as int)
}

/// The access token made from a broker's answer: the expiry is the timestamp
/// written as a date; token and time to live are taken as they came.
pub open spec fn broker_token(
    expires_at_seconds: WireInteger,
    token: Seq<char>,
    token_ttl: u64,
) -> Option<GcpAccessTokenView> {
    match wire_timestamp_text(expires_at_seconds) {
        Some(expiry) => Some(GcpAccessTokenView { expiry, token, token_ttl }),
        None => None,
    }
}

/// A broker's expiry that is not negative and that the calendar can hold is
/// written as the date of that second, whether it came signed or unsigned;
/// token and time to live are kept as they came.
pub proof fn lemma_broker_expiry(seconds: u64, token: Seq<char>, token_ttl: u64)
    requires
        seconds <= i64::MAX,
        rfc3339_utc_seconds(seconds as int) is Some,
    ensures
        broker_token(WireInteger::Unsigned(seconds), token, token_ttl) == Some(
            GcpAccessTokenView {
                expiry: rfc3339_utc_seconds(seconds as int)->0,
                token,
                token_ttl,
            },
        ),
        broker_token(WireInteger::Signed(seconds as i64), token, token_ttl) == broker_token(
            WireInteger::Unsigned(seconds),
            token,
            token_ttl,
        ),
{
}

/// A broker's expiry above `i64::MAX` is refused.
pub proof fn lemma_broker_expiry_beyond_signed_range(
    seconds: u64,
    token: Seq<char>,
    token_ttl: u64,
)
    requires
        seconds > i64::MAX,
    ensures
        broker_token(WireInteger::Unsigned(seconds), token, token_ttl) is None,
{
}

/// The access token made at `now` from a token of the SDK: the expiry written
/// as a date, and as time to live the whole seconds between expiry and `now`,
/// whichever comes first.
pub open spec fn sdk_token(token: Seq<char>, expires_at: Option<Instant>, now: Instant) -> Option<
    GcpAccessTokenView,
> {
    match sdk_expiry(expires_at, now) {
        Some(expiry) => match rfc3339_utc_seconds(expiry.secs as int) {
            Some(text) => Some(
                GcpAccessTokenView {
                    expiry: text,
                    token,
                    token_ttl: whole_seconds_between(expiry, now) as u64,
                },
            ),
            None => None,
        },
        None => None,
    }
}

/// Whether an outcome is the one owed to an access token that may not exist:
/// the token, or `TimestampOutOfRange`.
pub open spec fn token_or_out_of_range(
    expected: Option<GcpAccessTokenView>,
    made: Result<GcpAccessToken, Error>,
) -> bool {
    match expected {
        Some(expected) => made matches Ok(t) && t@ == expected,
        None => made matches Err(Error::TimestampOutOfRange),
    }
}

impl GcpAccessToken {
    /// Makes an access token from what a broker answered: the expiry in
    /// seconds since the epoch, the token, and its time to live.
    pub fn from_broker(expires_at_seconds: WireInteger, token: String, token_ttl: u64) -> (made:
        Result<GcpAccessToken, Error>)
        ensures
            token_or_out_of_range(broker_token(expires_at_seconds, token@, token_ttl), made),
            in_calendar(expires_at_seconds.value()) ==> made is Ok,
    {
        match timestamp_to_iso(expires_at_seconds) {
            Ok(expiry) => Ok(GcpAccessToken { expiry, token, token_ttl }),
            Err(e) => Err(e),
        }
    }

    /// Makes an access token at `now` from a token of the SDK.
    pub fn from_gcp_auth_at(token: &SdkToken, now: Instant) -> (made: Result<GcpAccessToken, Error>)
        requires
            token.wf(),
            now.wf(),
        ensures
            token_or_out_of_range(sdk_token(token.token@, token.expires_at, now), made),
            sdk_expiry_in_calendar(token.expires_at, now) ==> made is Ok,
    {
        let expiry = match token.expires_at {
            Some(at) => at,
            None => match now.plus_seconds(DEFAULT_TOKEN_LIFETIME_SECONDS) {
                Some(at) => at,
                None => {
                    return Err(Error::TimestampOutOfRange);
                },
            },
        };
        let text = match expiry.to_rfc3339() {
            Ok(text) => text,
            Err(e) => {
                return Err(e);
            },
        };
        Ok(
            GcpAccessToken {
                expiry: text,
                token: token.token.clone(),
                token_ttl: seconds_between(expiry, now),
            },
        )
    }

    /// Makes an access token from a token of the SDK: the clock is read once,
    /// and both the default expiry and the time to live count from that
    /// instant.
    pub fn from_gcp_auth(token: &SdkToken) -> (made: Result<GcpAccessToken, Error>)
        requires
            token.wf(),
        ensures
            exists|now: Instant|
                now.wf() && clock_range(now) && token_or_out_of_range(
                    #[trigger] sdk_token(token.token@, token.expires_at, now),
                    made,
                ) && (sdk_expiry_in_calendar(token.expires_at, now) ==> made is Ok),
            token.expires_at matches Some(at) && in_calendar(at.secs as int) ==> made is Ok,
    {
        let now = Instant::now();
        GcpAccessToken::from_gcp_auth_at(token, now)
    }
}

/// A token without an expiry lapses fifty minutes after it was made, and has
/// exactly fifty minutes to live.
pub proof fn lemma_default_lifetime(token: Seq<char>, now: Instant)
    requires
        sdk_token(token, None, now) is Some,
    ensures
        now.plus_seconds_spec(DEFAULT_TOKEN_LIFETIME_SECONDS) is Some,
        Some(sdk_token(token, None, now)->0.expiry) == rfc3339_utc_seconds(
            now.secs + DEFAULT_TOKEN_LIFETIME_SECONDS,
        ),
        sdk_token(token, None, now)->0.token_ttl == DEFAULT_TOKEN_LIFETIME_SECONDS,
        DEFAULT_TOKEN_LIFETIME_SECONDS == 50 * 60,
{
    lemma_seconds_between_after_plus(now, DEFAULT_TOKEN_LIFETIME_SECONDS);
}

} // verus!
