//! The names under which the front end changes one setting at a time.
use vstd::prelude::*;

verus! {

/// One adjustable setting.
#[derive(Debug, Clone, Copy, PartialEq, Eq, Structural)]
pub enum SettingKey {
    Curve,
    WsUrl,
    PublishTopic,
    SubscribeTopic,
    MaxLinearSpeedX,
    MaxLinearSpeedY,
    MaxRoll,
    MaxPitch,
    ExpSensitivity,
    MaxBaseHeight,
    MinBaseHeight,
    MaxStepHeight,
    MinStepHeight,
    MinDuration,
    MaxDuration,
    MinButtonIntervalMs,
    Step,
    AxisSmooth,
}

/// The kind of value a setting takes.
#[derive(Debug, Clone, Copy, PartialEq, Eq, Structural)]
pub enum ValueKind {
    /// A mapping curve, by its variant name.
    Curve,
    /// A string.
    Text,
    /// A number, kept as a 32-bit float.
    Number,
    /// A non-negative integer (milliseconds).
    Count,
}

/// The name the front end uses for `key`.
pub open spec fn key_name(key: SettingKey) -> Seq<char> {
    match key {
        SettingKey::Curve => "curve"@,
        SettingKey::WsUrl => "ws_url"@,
        SettingKey::PublishTopic => "publish_topic"@,
        SettingKey::SubscribeTopic => "subscribe_topic"@,
        SettingKey::MaxLinearSpeedX => "max_linear_speed_x"@,
        SettingKey::MaxLinearSpeedY => "max_linear_speed_y"@,
        SettingKey::MaxRoll => "max_roll"@,
        SettingKey::MaxPitch => "max_pitch"@,
        SettingKey::ExpSensitivity => "exp_sensitivity"@,
        SettingKey::MaxBaseHeight => "max_base_height"@,
        SettingKey::MinBaseHeight => "min_base_height"@,
        SettingKey::MaxStepHeight => "max_step_height"@,
        SettingKey::MinStepHeight => "min_step_height"@,
        SettingKey::MinDuration => "min_duration"@,
        SettingKey::MaxDuration => "max_duration"@,
        SettingKey::MinButtonIntervalMs => "min_button_interval_ms"@,
        SettingKey::Step => "step"@,
        SettingKey::AxisSmooth => "axis_smooth"@,
    }
}

/// Each setting is named after the field it sets.
pub proof fn lemma_setting_key_names()
    ensures
        key_name(SettingKey::Curve) == "curve"@,
        key_name(SettingKey::WsUrl) == "ws_url"@,
        key_name(SettingKey::PublishTopic) == "publish_topic"@,
        key_name(SettingKey::SubscribeTopic) == "subscribe_topic"@,
        key_name(SettingKey::MaxLinearSpeedX) == "max_linear_speed_x"@,
        key_name(SettingKey::MaxLinearSpeedY) == "max_linear_speed_y"@,
        key_name(SettingKey::MaxRoll) == "max_roll"@,
        key_name(SettingKey::MaxPitch) == "max_pitch"@,
        key_name(SettingKey::ExpSensitivity) == "exp_sensitivity"@,
        key_name(SettingKey::MaxBaseHeight) == "max_base_height"@,
        key_name(SettingKey::MinBaseHeight) == "min_base_height"@,
        key_name(SettingKey::MaxStepHeight) == "max_step_height"@,
        key_name(SettingKey::MinStepHeight) == "min_step_height"@,
        key_name(SettingKey::MinDuration) == "min_duration"@,
        key_name(SettingKey::MaxDuration) == "max_duration"@,
        key_name(SettingKey::MinButtonIntervalMs) == "min_button_interval_ms"@,
        key_name(SettingKey::Step) == "step"@,
        key_name(SettingKey::AxisSmooth) == "axis_smooth"@,
{
}

/// Distinct settings have distinct names, so a name picks at most one setting.
pub proof fn lemma_key_names_distinct(a: SettingKey, b: SettingKey)
    ensures
        key_name(a) == key_name(b) ==> a == b,
{
    reveal_strlit("curve");
    reveal_strlit("ws_url");
    reveal_strlit("publish_topic");
    reveal_strlit("subscribe_topic");
    reveal_strlit("max_linear_speed_x");
    reveal_strlit("max_linear_speed_y");
    reveal_strlit("max_roll");
    reveal_strlit("max_pitch");
    reveal_strlit("exp_sensitivity");
    reveal_strlit("max_base_height");
    reveal_strlit("min_base_height");
    reveal_strlit("max_step_height");
    reveal_strlit("min_step_height");
    reveal_strlit("min_duration");
    reveal_strlit("max_duration");
    reveal_strlit("min_button_interval_ms");
    reveal_strlit("step");
    reveal_strlit("axis_smooth");
    if key_name(a) == key_name(b) {
        let na = key_name(a);
        let nb = key_name(b);
        assert(na.len() == nb.len() && na[1] == nb[1] && na[4] == nb[4] && na[17] == nb[17]);
    }
}

/// The kind of value each setting takes.
pub open spec fn key_kind(key: SettingKey) -> ValueKind {
    match key {
        SettingKey::Curve => ValueKind::Curve,
        SettingKey::WsUrl | SettingKey::PublishTopic | SettingKey::SubscribeTopic => ValueKind::Text,
        SettingKey::MinButtonIntervalMs => ValueKind::Count,
        _ => ValueKind::Number,
    }
}

/// The curve takes a curve; the endpoint and the two topics take strings; the
/// button interval takes a whole number of milliseconds; every other setting
/// takes any number.
pub proof fn lemma_setting_kinds(k: SettingKey)
    ensures
        k == SettingKey::Curve <==> key_kind(k) == ValueKind::Curve,
        k == SettingKey::WsUrl || k == SettingKey::PublishTopic || k == SettingKey::SubscribeTopic
            <==> key_kind(k) == ValueKind::Text,
        k == SettingKey::MinButtonIntervalMs <==> key_kind(k) == ValueKind::Count,
        k != SettingKey::Curve && k != SettingKey::WsUrl && k != SettingKey::PublishTopic && k != SettingKey::SubscribeTopic && k != SettingKey::MinButtonIntervalMs <==> key_kind(k) == ValueKind::Number,
{
}

/// The answer to an update whose key names no setting.
pub open spec fn unknown_key_message(key: Seq<char>) -> Seq<char> {
    "unknown key: "@ + key
}

/// The answer to a value of the wrong kind; `None` for a curve, whose
/// answer is the deserializer's own message.
pub open spec fn rejection_text(kind: ValueKind) -> Option<Seq<char>> {
    match kind {
        ValueKind::Curve => None,
        ValueKind::Text => Some("invalid string"@),
        ValueKind::Number | ValueKind::Count => Some("invalid"@),
    }
}

/// The shape of a JSON value, as far as the settings tell values apart.
#[derive(Debug, Clone, Copy, PartialEq, Eq, Structural)]
pub enum ValueShape {
    /// A string.
    Text,
    /// A number that is a non-negative integer within `u64`.
    UnsignedInteger,
    /// Any other number.
    OtherNumber,
    /// Null, a boolean, an array or an object.
    Other,
}

/// What an update does with its value.
#[derive(Debug, Clone, PartialEq, Eq)]
pub enum ValueDecision {
    /// Store the value in the setting.
    Store,
    /// Hand the value to the curve deserializer, which accepts or answers.
    DeserializeCurve,
    /// Refuse the update with this answer.
    Reject(String),
}

/// A value of this shape can be stored in a setting of this kind (a curve is
/// judged by the deserializer instead).
pub open spec fn value_fits(kind: ValueKind, shape: ValueShape) -> bool {
    match kind {
        ValueKind::Curve => true,
        ValueKind::Text => shape == ValueShape::Text,
        ValueKind::Number => shape == ValueShape::UnsignedInteger || shape == ValueShape::OtherNumber,
        ValueKind::Count => shape == ValueShape::UnsignedInteger,
    }
}

/// Decides an update of `key` with a value of `shape`: a curve goes to the
/// deserializer; a string setting takes only a string, a number setting any
/// number, the interval only a non-negative integer; anything else is refused
/// with the kind's answer (`invalid string` or `invalid`).
pub fn check_setting_value(key: SettingKey, shape: ValueShape) -> (decision: ValueDecision)
    ensures
        key_kind(key) == ValueKind::Curve ==> decision == ValueDecision::DeserializeCurve,
        key_kind(key) != ValueKind::Curve && value_fits(key_kind(key), shape) ==> decision
            == ValueDecision::Store,
        key_kind(key) != ValueKind::Curve && !value_fits(key_kind(key), shape) ==> (decision matches ValueDecision::Reject(m)
            && rejection_text(key_kind(key)) == Some(m@)),
        key == SettingKey::Curve ==> decision == ValueDecision::DeserializeCurve,
        key != SettingKey::Curve && key != SettingKey::WsUrl && key != SettingKey::PublishTopic && key != SettingKey::SubscribeTopic && key != SettingKey::MinButtonIntervalMs ==> (decision == ValueDecision::Store <==> (shape == ValueShape::UnsignedInteger || shape
            == ValueShape::OtherNumber)),
        key != SettingKey::Curve && key != SettingKey::WsUrl && key != SettingKey::PublishTopic && key != SettingKey::SubscribeTopic && key != SettingKey::MinButtonIntervalMs && decision != ValueDecision::Store ==> (decision matches ValueDecision::Reject(m) && m@ == "invalid"@),
        key == SettingKey::WsUrl || key == SettingKey::PublishTopic || key == SettingKey::SubscribeTopic ==> (decision
            == ValueDecision::Store <==> shape == ValueShape::Text),
        (key == SettingKey::WsUrl || key == SettingKey::PublishTopic || key == SettingKey::SubscribeTopic) && shape
            != ValueShape::Text ==> (decision matches ValueDecision::Reject(m) && m@ == "invalid string"@),
        key == SettingKey::MinButtonIntervalMs ==> (decision == ValueDecision::Store <==> shape == ValueShape::UnsignedInteger),
        key == SettingKey::MinButtonIntervalMs && shape != ValueShape::UnsignedInteger ==> (decision matches ValueDecision::Reject(m) && m@ == "invalid"@),
{
    let kind = key.kind();
    let fits = match kind {
        ValueKind::Curve => {
            return ValueDecision::DeserializeCurve;
        },
        ValueKind::Text => match shape {
            ValueShape::Text => true,
            _ => false,
        },
        ValueKind::Number => match shape {
            ValueShape::UnsignedInteger | ValueShape::OtherNumber => true,
            _ => false,
        },
        ValueKind::Count => match shape {
            ValueShape::UnsignedInteger => true,
            _ => false,
        },
    };
    if fits {
        ValueDecision::Store
    } else {
        match kind.rejection() {
            Some(text) => ValueDecision::Reject(text.to_owned()),
            None => ValueDecision::DeserializeCurve,
        }
    }
}

fn is_named(key: &String, name: &str) -> (same: bool)
    ensures
        same == (key@ == name@),
{
    key.eq(&name.to_owned())
}

impl SettingKey {
    /// The name the front end uses for this setting.
    pub fn name(self) -> (name: &'static str)
        ensures
            name@ == key_name(self),
    {
        match self {
            SettingKey::Curve => "curve",
            SettingKey::WsUrl => "ws_url",
            SettingKey::PublishTopic => "publish_topic",
            SettingKey::SubscribeTopic => "subscribe_topic",
            SettingKey::MaxLinearSpeedX => "max_linear_speed_x",
            SettingKey::MaxLinearSpeedY => "max_linear_speed_y",
            SettingKey::MaxRoll => "max_roll",
            SettingKey::MaxPitch => "max_pitch",
            SettingKey::ExpSensitivity => "exp_sensitivity",
            SettingKey::MaxBaseHeight => "max_base_height",
            SettingKey::MinBaseHeight => "min_base_height",
            SettingKey::MaxStepHeight => "max_step_height",
            SettingKey::MinStepHeight => "min_step_height",
            SettingKey::MinDuration => "min_duration",
            SettingKey::MaxDuration => "max_duration",
            SettingKey::MinButtonIntervalMs => "min_button_interval_ms",
            SettingKey::Step => "step",
            SettingKey::AxisSmooth => "axis_smooth",
        }
    }

    /// The kind of value this setting takes.
    pub fn kind(self) -> (kind: ValueKind)
        ensures
            kind == key_kind(self),
    {
        match self {
            SettingKey::Curve => ValueKind::Curve,
            SettingKey::WsUrl | SettingKey::PublishTopic | SettingKey::SubscribeTopic => ValueKind::Text,
            SettingKey::MinButtonIntervalMs => ValueKind::Count,
            _ => ValueKind::Number,
        }
    }
}

impl ValueKind {
    /// The answer to a value of the wrong kind; `None` for a curve.
    pub fn rejection(self) -> (text: Option<&'static str>)
        ensures
            text matches Some(t) ==> rejection_text(self) == Some(t@),
            text is None ==> rejection_text(self) is None,
    {
        match self {
            ValueKind::Curve => None,
            ValueKind::Text => Some("invalid string"),
            ValueKind::Number | ValueKind::Count => Some("invalid"),
        }
    }
}

/// The setting that `key` names, or the answer `unknown key: <key>` where it names none.
pub fn parse_setting_key(key: &str) -> (parsed: Result<SettingKey, String>)
    ensures
        parsed matches Ok(k) ==> key_name(k) == key@,
        parsed matches Err(msg) ==> msg@ == unknown_key_message(key@) && forall|k: SettingKey|
            key_name(k) != key@,
        forall|k: SettingKey| key_name(k) == key@ ==> parsed == Ok::<SettingKey, String>(k),
        key@ == "curve"@ ==> parsed == Ok::<SettingKey, String>(SettingKey::Curve),
        key@ == "ws_url"@ ==> parsed == Ok::<SettingKey, String>(SettingKey::WsUrl),
        key@ == "publish_topic"@ ==> parsed == Ok::<SettingKey, String>(SettingKey::PublishTopic),
        key@ == "subscribe_topic"@ ==> parsed == Ok::<SettingKey, String>(SettingKey::SubscribeTopic),
        key@ == "max_linear_speed_x"@ ==> parsed == Ok::<SettingKey, String>(SettingKey::MaxLinearSpeedX),
        key@ == "max_linear_speed_y"@ ==> parsed == Ok::<SettingKey, String>(SettingKey::MaxLinearSpeedY),
        key@ == "max_roll"@ ==> parsed == Ok::<SettingKey, String>(SettingKey::MaxRoll),
        key@ == "max_pitch"@ ==> parsed == Ok::<SettingKey, String>(SettingKey::MaxPitch),
        key@ == "exp_sensitivity"@ ==> parsed == Ok::<SettingKey, String>(SettingKey::ExpSensitivity),
        key@ == "max_base_height"@ ==> parsed == Ok::<SettingKey, String>(SettingKey::MaxBaseHeight),
        key@ == "min_base_height"@ ==> parsed == Ok::<SettingKey, String>(SettingKey::MinBaseHeight),
        key@ == "max_step_height"@ ==> parsed == Ok::<SettingKey, String>(SettingKey::MaxStepHeight),
        key@ == "min_step_height"@ ==> parsed == Ok::<SettingKey, String>(SettingKey::MinStepHeight),
        key@ == "min_duration"@ ==> parsed == Ok::<SettingKey, String>(SettingKey::MinDuration),
        key@ == "max_duration"@ ==> parsed == Ok::<SettingKey, String>(SettingKey::MaxDuration),
        key@ == "min_button_interval_ms"@ ==> parsed == Ok::<SettingKey, String>(SettingKey::MinButtonIntervalMs),
        key@ == "step"@ ==> parsed == Ok::<SettingKey, String>(SettingKey::Step),
        key@ == "axis_smooth"@ ==> parsed == Ok::<SettingKey, String>(SettingKey::AxisSmooth),
{
    let parsed = find_setting_key(key);
    proof {
        lemma_setting_key_names();
        assert forall|k: SettingKey| key_name(k) == key@ implies parsed == Ok::<SettingKey, String>(k) by {
            if let Ok(found) = parsed {
                lemma_key_names_distinct(found, k);
            }
        }
    }
    parsed
}

fn find_setting_key(key: &str) -> (parsed: Result<SettingKey, String>)
    ensures
        parsed matches Ok(k) ==> key_name(k) == key@,
        parsed matches Err(msg) ==> msg@ == unknown_key_message(key@) && forall|k: SettingKey|
            key_name(k) != key@,
{
    let key_text = key.to_owned();
    let all = [
        SettingKey::Curve,
        SettingKey::WsUrl,
        SettingKey::PublishTopic,
        SettingKey::SubscribeTopic,
        SettingKey::MaxLinearSpeedX,
        SettingKey::MaxLinearSpeedY,
        SettingKey::MaxRoll,
        SettingKey::MaxPitch,
        SettingKey::ExpSensitivity,
        SettingKey::MaxBaseHeight,
        SettingKey::MinBaseHeight,
        SettingKey::MaxStepHeight,
        SettingKey::MinStepHeight,
        SettingKey::MinDuration,
        SettingKey::MaxDuration,
        SettingKey::MinButtonIntervalMs,
        SettingKey::Step,
        SettingKey::AxisSmooth,
    ];
    let mut i: usize = 0;
    while i < all.len()
        invariant
            i <= all@.len(),
            all@.len() == 18,
            key_text@ == key@,
            all@ == seq![
                SettingKey::Curve,
                SettingKey::WsUrl,
                SettingKey::PublishTopic,
                SettingKey::SubscribeTopic,
                SettingKey::MaxLinearSpeedX,
                SettingKey::MaxLinearSpeedY,
                SettingKey::MaxRoll,
                SettingKey::MaxPitch,
                SettingKey::ExpSensitivity,
                SettingKey::MaxBaseHeight,
                SettingKey::MinBaseHeight,
                SettingKey::MaxStepHeight,
                SettingKey::MinStepHeight,
                SettingKey::MinDuration,
                SettingKey::MaxDuration,
                SettingKey::MinButtonIntervalMs,
                SettingKey::Step,
                SettingKey::AxisSmooth,
            ],
            forall|j: int| 0 <= j < i ==> key_name(#[trigger] all@[j]) != key@,
        decreases all@.len() - i,
    {
        let candidate = all[i];
        if is_named(&key_text, candidate.name()) {
            return Ok(candidate);
        }
        i = i + 1;
    }
    assert forall|k: SettingKey| key_name(k) != key@ by {
        let j: int = match k {
            SettingKey::Curve => 0,
            SettingKey::WsUrl => 1,
            SettingKey::PublishTopic => 2,
            SettingKey::SubscribeTopic => 3,
            SettingKey::MaxLinearSpeedX => 4,
            SettingKey::MaxLinearSpeedY => 5,
            SettingKey::MaxRoll => 6,
            SettingKey::MaxPitch => 7,
            SettingKey::ExpSensitivity => 8,
            SettingKey::MaxBaseHeight => 9,
            SettingKey::MinBaseHeight => 10,
            SettingKey::MaxStepHeight => 11,
            SettingKey::MinStepHeight => 12,
            SettingKey::MinDuration => 13,
            SettingKey::MaxDuration => 14,
            SettingKey::MinButtonIntervalMs => 15,
            SettingKey::Step => 16,
            SettingKey::AxisSmooth => 17,
        };
        assert(all@[j] == k);
    }
    let mut message = String::new();
    message.append("unknown key: ");
    message.append(key);
    Err(message)
}

} // verus!
