//! Notification rendering: language selection, Slack settings, and the
//! exact texts the sink delivers for each derived event.

use crate::decimal::{i32_to_string, i64_to_string, spec_int_string};
use crate::detector::{DeploymentEvent, DeploymentEventView};
use vstd::prelude::*;
use vstd::string::StringExecFns;

verus! {

/// Language in which notifications are rendered.
#[derive(Clone, Copy, Debug, PartialEq, Eq, Structural)]
pub enum Language {
    Korean,
    English,
}

/// Characters of a string after lowercasing, as `str::to_lowercase` maps
/// them; a function of the input characters alone.
pub uninterp spec fn lower_of(s: Seq<char>) -> Seq<char>;

/// Relies on `str::to_lowercase`: the result depends on the characters of
/// the input alone.
#[verifier::external_body]
fn lowercase(s: &str) -> (r: String)
    ensures
        r@ == lower_of(s@),
{
    s.to_lowercase()
}

/// The language that a lowercased code selects: English for `"en"` or
/// `"english"`, Korean for everything else.
pub open spec fn spec_language_of_code(folded: Seq<char>) -> Language {
    if folded == "en"@ || folded == "english"@ {
        Language::English
    } else {
        Language::Korean
    }
}

impl Language {
    /// Language selected by an already-lowercased code.
    pub fn of_folded_code(folded: &String) -> (lang: Language)
        ensures
            lang == spec_language_of_code(folded@),
    {
        if *folded == "en".to_owned() || *folded == "english".to_owned() {
            Language::English
        } else {
            Language::Korean
        }
    }

    /// Language selected by a code from the environment, compared without
    /// regard to case; unrecognized codes fall back to Korean.
    pub fn from_env(lang_code: &str) -> (lang: Language)
        ensures
            lang == spec_language_of_code(lower_of(lang_code@)),
    {
        let folded = lowercase(lang_code);
        Language::of_folded_code(&folded)
    }
}

/// Settings for the notification sink: rendering language and optional
/// Slack credentials.
#[derive(Clone)]
pub struct NotifierConfig {
    pub language: Language,
    pub slack_token: Option<String>,
    pub slack_channel: Option<String>,
}

impl NotifierConfig {
    /// Builds the configuration from raw settings: a missing language code
    /// falls back to Korean, credentials are kept as given.
    pub fn from_settings(
        lang_code: Option<String>,
        slack_token: Option<String>,
        slack_channel: Option<String>,
    ) -> (cfg: NotifierConfig)
        ensures
            cfg.language == match lang_code {
                Some(code) => spec_language_of_code(lower_of(code@)),
                None => Language::Korean,
            },
            cfg.slack_token == slack_token,
            cfg.slack_channel == slack_channel,
    {
        let language = match &lang_code {
            Some(code) => Language::from_env(code.as_str()),
            None => Language::Korean,
        };
        NotifierConfig { language, slack_token, slack_channel }
    }

    /// Slack delivery is configured exactly when both a token and a channel
    /// are present.
    pub fn has_slack_config(&self) -> (r: bool)
        ensures
            r == (self.slack_token is Some && self.slack_channel is Some),
    {
        self.slack_token.is_some() && self.slack_channel.is_some()
    }
}

/// The ` (replicas: old → new)` suffix of a start message, present only
/// when the start carried a replica change.
pub open spec fn spec_replica_delta_suffix(
    old_replicas: Option<int>,
    new_replicas: Option<int>,
) -> Seq<char> {
    match (old_replicas, new_replicas) {
        (Some(o), Some(n)) => " (replicas: "@ + spec_int_string(o) + " → "@ + spec_int_string(n)
            + ")"@,
        _ => Seq::empty(),
    }
}

/// The `replicas: ...` clause of a completion message: the transition when
/// the completed rollout changed the count, the plain count otherwise.
pub open spec fn spec_replica_info(replicas: int, replica_changed: Option<(int, int)>) -> Seq<
    char,
> {
    match replica_changed {
        Some((o, n)) => "replicas: "@ + spec_int_string(o) + " → "@ + spec_int_string(n),
        None => "replicas: "@ + spec_int_string(replicas),
    }
}

/// The exact console message for an event, in the configured language.
pub open spec fn spec_format_message(e: DeploymentEventView, language: Language) -> Seq<char> {
    match e {
        DeploymentEventView::DeploymentStarted {
            namespace,
            name,
            old_generation,
            new_generation,
            old_replicas,
            new_replicas,
        } => {
            let info = spec_replica_delta_suffix(old_replicas, new_replicas);
            match language {
                Language::Korean => "🚀 [배포 시작] "@ + namespace + "/"@ + name
                    + ": 배포가 시작됩니다 (revision: "@ + spec_int_string(old_generation)
                    + " -> "@ + spec_int_string(new_generation) + ")"@ + info,
                Language::English => "🚀 [Deploy Started] "@ + namespace + "/"@ + name
                    + ": Deployment started (revision: "@ + spec_int_string(old_generation)
                    + " -> "@ + spec_int_string(new_generation) + ")"@ + info,
            }
        },
        DeploymentEventView::DeploymentCompleted {
            namespace,
            name,
            generation,
            replicas,
            replica_changed,
        } => {
            let info = spec_replica_info(replicas, replica_changed);
            match language {
                Language::Korean => "✅ [배포 완료] "@ + namespace + "/"@ + name
                    + ": 배포가 완료되었습니다 (revision: "@ + spec_int_string(generation)
                    + ", "@ + info + ")"@,
                Language::English => "✅ [Deploy Completed] "@ + namespace + "/"@ + name
                    + ": Deployment completed (revision: "@ + spec_int_string(generation) + ", "@
                    + info + ")"@,
            }
        },
        DeploymentEventView::ReplicaScaleStarted { namespace, name, old_replicas, new_replicas } => {
            match language {
                Language::Korean => {
                    if new_replicas > old_replicas {
                        "📈 [스케일 업] "@ + namespace + "/"@ + name + ": "@ + spec_int_string(
                            old_replicas,
                        ) + " → "@ + spec_int_string(new_replicas) + " replicas 증가"@
                    } else {
                        "📉 [스케일 다운] "@ + namespace + "/"@ + name + ": "@ + spec_int_string(
                            old_replicas,
                        ) + " → "@ + spec_int_string(new_replicas) + " replicas 감소"@
                    }
                },
                Language::English => {
                    if new_replicas > old_replicas {
                        "📈 [Scale Up] "@ + namespace + "/"@ + name + ": "@ + spec_int_string(
                            old_replicas,
                        ) + " → "@ + spec_int_string(new_replicas) + " replicas"@
                    } else {
                        "📉 [Scale Down] "@ + namespace + "/"@ + name + ": "@ + spec_int_string(
                            old_replicas,
                        ) + " → "@ + spec_int_string(new_replicas) + " replicas"@
                    }
                },
            }
        },
        DeploymentEventView::ReplicaScaleCompleted { namespace, name, replicas } => {
            match language {
                Language::Korean => "✅ [스케일 완료] "@ + namespace + "/"@ + name
                    + ": replica 수정이 완료되었습니다 (replicas: "@ + spec_int_string(replicas)
                    + ")"@,
                Language::English => "✅ [Scale Completed] "@ + namespace + "/"@ + name
                    + ": Scaling completed (replicas: "@ + spec_int_string(replicas) + ")"@,
            }
        },
    }
}

/// Builds the ` (replicas: old → new)` suffix of a start message.
fn replica_delta_suffix(old_replicas: Option<i32>, new_replicas: Option<i32>) -> (r: String)
    ensures
        r@ == spec_replica_delta_suffix(
            match old_replicas {
                Some(o) => Some(o as int),
                None => None,
            },
            match new_replicas {
                Some(n) => Some(n as int),
                None => None,
            },
        ),
{
    match (old_replicas, new_replicas) {
        (Some(o), Some(n)) => {
            let mut r: String = " (replicas: ".to_owned();
            let old_text = i32_to_string(o);
            r.append(old_text.as_str());
            r.append(" → ");
            let new_text = i32_to_string(n);
            r.append(new_text.as_str());
            r.append(")");
            r
        },
        _ => String::new(),
    }
}

/// Builds the `replicas: ...` clause of a completion message.
fn replica_info(replicas: i32, replica_changed: Option<(i32, i32)>) -> (r: String)
    ensures
        r@ == spec_replica_info(
            replicas as int,
            match replica_changed {
                Some((o, n)) => Some((o as int, n as int)),
                None => None,
            },
        ),
{
    let mut r: String = "replicas: ".to_owned();
    match replica_changed {
        Some((o, n)) => {
            let old_text = i32_to_string(o);
            r.append(old_text.as_str());
            r.append(" → ");
            let new_text = i32_to_string(n);
            r.append(new_text.as_str());
        },
        None => {
            let count_text = i32_to_string(replicas);
            r.append(count_text.as_str());
        },
    }
    r
}

/// Renders the console message for an event in the given language.
pub fn format_message(event: &DeploymentEvent, language: Language) -> (r: String)
    ensures
        r@ == spec_format_message(event@, language),
{
    match event {
        DeploymentEvent::DeploymentStarted {
            namespace,
            name,
            old_generation,
            new_generation,
            old_replicas,
            new_replicas,
        } => {
            let info = replica_delta_suffix(*old_replicas, *new_replicas);
            let mut r: String = match language {
                Language::Korean => "🚀 [배포 시작] ".to_owned(),
                Language::English => "🚀 [Deploy Started] ".to_owned(),
            };
            r.append(namespace.as_str());
            r.append("/");
            r.append(name.as_str());
            match language {
                Language::Korean => r.append(": 배포가 시작됩니다 (revision: "),
                Language::English => r.append(": Deployment started (revision: "),
            }
            let old_text = i64_to_string(*old_generation);
            r.append(old_text.as_str());
            r.append(" -> ");
            let new_text = i64_to_string(*new_generation);
            r.append(new_text.as_str());
            r.append(")");
            r.append(info.as_str());
            r
        },
        DeploymentEvent::DeploymentCompleted {
            namespace,
            name,
            generation,
            replicas,
            replica_changed,
        } => {
            let info = replica_info(*replicas, *replica_changed);
            let mut r: String = match language {
                Language::Korean => "✅ [배포 완료] ".to_owned(),
                Language::English => "✅ [Deploy Completed] ".to_owned(),
            };
            r.append(namespace.as_str());
            r.append("/");
            r.append(name.as_str());
            match language {
                Language::Korean => r.append(": 배포가 완료되었습니다 (revision: "),
                Language::English => r.append(": Deployment completed (revision: "),
            }
            let generation_text = i64_to_string(*generation);
            r.append(generation_text.as_str());
            r.append(", ");
            r.append(info.as_str());
            r.append(")");
            r
        },
        DeploymentEvent::ReplicaScaleStarted { namespace, name, old_replicas, new_replicas } => {
            let mut r: String = if *new_replicas > *old_replicas {
                match language {
                    Language::Korean => "📈 [스케일 업] ".to_owned(),
                    Language::English => "📈 [Scale Up] ".to_owned(),
                }
            } else {
                match language {
                    Language::Korean => "📉 [스케일 다운] ".to_owned(),
                    Language::English => "📉 [Scale Down] ".to_owned(),
                }
            };
            r.append(namespace.as_str());
            r.append("/");
            r.append(name.as_str());
            r.append(": ");
            let old_text = i32_to_string(*old_replicas);
            r.append(old_text.as_str());
            r.append(" → ");
            let new_text = i32_to_string(*new_replicas);
            r.append(new_text.as_str());
            match language {
                Language::Korean => {
                    if *new_replicas > *old_replicas {
                        r.append(" replicas 증가");
                    } else {
                        r.append(" replicas 감소");
                    }
                },
                Language::English => r.append(" replicas"),
            }
            r
        },
        DeploymentEvent::ReplicaScaleCompleted { namespace, name, replicas } => {
            let mut r: String = match language {
                Language::Korean => "✅ [스케일 완료] ".to_owned(),
                Language::English => "✅ [Scale Completed] ".to_owned(),
            };
            r.append(namespace.as_str());
            r.append("/");
            r.append(name.as_str());
            match language {
                Language::Korean => r.append(": replica 수정이 완료되었습니다 (replicas: "),
                Language::English => r.append(": Scaling completed (replicas: "),
            }
            let count_text = i32_to_string(*replicas);
            r.append(count_text.as_str());
            r.append(")");
            r
        },
    }
}

/// Mathematical model of a [`SlackField`].
#[verifier::ext_equal]
pub struct SlackFieldView {
    pub title: Seq<char>,
    pub value: Seq<char>,
    pub short: bool,
}

/// One titled value of a Slack attachment.
#[derive(Debug)]
pub struct SlackField {
    pub title: String,
    pub value: String,
    pub short: bool,
}

impl View for SlackField {
    type V = SlackFieldView;

    open spec fn view(&self) -> SlackFieldView {
        SlackFieldView { title: self.title@, value: self.value@, short: self.short }
    }
}

impl DeepView for SlackField {
    type V = SlackFieldView;

    open spec fn deep_view(&self) -> SlackFieldView {
        self.view()
    }
}

/// Mathematical model of a [`SlackAttachment`].
#[verifier::ext_equal]
pub struct SlackAttachmentView {
    pub color: Seq<char>,
    pub text: Option<Seq<char>>,
    pub fields: Option<Seq<SlackFieldView>>,
}

/// The colored, titled block a Slack notification carries; delivery turns
/// it into the wire format.
#[derive(Debug)]
pub struct SlackAttachment {
    pub color: String,
    pub text: Option<String>,
    pub fields: Option<Vec<SlackField>>,
}

impl View for SlackAttachment {
    type V = SlackAttachmentView;

    open spec fn view(&self) -> SlackAttachmentView {
        SlackAttachmentView {
            color: self.color@,
            text: match self.text {
                Some(ref t) => Some(t@),
                None => None,
            },
            fields: match self.fields {
                Some(ref fs) => Some(fs.deep_view()),
                None => None,
            },
        }
    }
}

/// The transition rendered as `old → new`.
pub open spec fn spec_arrow(old_value: int, new_value: int) -> Seq<char> {
    spec_int_string(old_value) + " → "@ + spec_int_string(new_value)
}

/// The identity rendered as `namespace/name`.
pub open spec fn spec_slash(namespace: Seq<char>, name: Seq<char>) -> Seq<char> {
    namespace + "/"@ + name
}

/// The attachment color of an event: amber for starts, green for
/// completions.
pub open spec fn spec_attachment_color(e: DeploymentEventView) -> Seq<char> {
    match e {
        DeploymentEventView::DeploymentStarted { .. } => "warning"@,
        DeploymentEventView::DeploymentCompleted { .. } => "good"@,
        DeploymentEventView::ReplicaScaleStarted { .. } => "warning"@,
        DeploymentEventView::ReplicaScaleCompleted { .. } => "good"@,
    }
}

/// The attachment title of an event, in the configured language.
pub open spec fn spec_attachment_title(e: DeploymentEventView, language: Language) -> Seq<char> {
    match e {
        DeploymentEventView::DeploymentStarted { .. } => match language {
            Language::Korean => "🚀 배포 시작"@,
            Language::English => "🚀 Deploy Started"@,
        },
        DeploymentEventView::DeploymentCompleted { .. } => match language {
            Language::Korean => "✅ 배포 완료"@,
            Language::English => "✅ Deploy Completed"@,
        },
        DeploymentEventView::ReplicaScaleStarted { old_replicas, new_replicas, .. } => {
            if new_replicas > old_replicas {
                match language {
                    Language::Korean => "📈 스케일 업"@,
                    Language::English => "📈 Scale Up"@,
                }
            } else {
                match language {
                    Language::Korean => "📉 스케일 다운"@,
                    Language::English => "📉 Scale Down"@,
                }
            }
        },
        DeploymentEventView::ReplicaScaleCompleted { .. } => match language {
            Language::Korean => "✅ 스케일 완료"@,
            Language::English => "✅ Scale Completed"@,
        },
    }
}

/// The titled values of an event's attachment: the resource identity, then
/// the revision or replica transition it describes.
pub open spec fn spec_attachment_fields(e: DeploymentEventView) -> Seq<SlackFieldView> {
    match e {
        DeploymentEventView::DeploymentStarted {
            namespace,
            name,
            old_generation,
            new_generation,
            old_replicas,
            new_replicas,
        } => {
            let base = seq![
                SlackFieldView {
                    title: "Deployment"@,
                    value: spec_slash(namespace, name),
                    short: true,
                },
                SlackFieldView {
                    title: "Revision"@,
                    value: spec_arrow(old_generation, new_generation),
                    short: true,
                },
            ];
            match (old_replicas, new_replicas) {
                (Some(o), Some(n)) => base + seq![
                    SlackFieldView { title: "Replicas"@, value: spec_arrow(o, n), short: true },
                ],
                _ => base,
            }
        },
        DeploymentEventView::DeploymentCompleted {
            namespace,
            name,
            generation,
            replicas,
            replica_changed,
        } => seq![
            SlackFieldView { title: "Deployment"@, value: spec_slash(namespace, name), short: true },
            SlackFieldView { title: "Revision"@, value: spec_int_string(generation), short: true },
            SlackFieldView {
                title: "Replicas"@,
                value: match replica_changed {
                    Some((o, n)) => spec_arrow(o, n),
                    None => spec_int_string(replicas),
                },
                short: true,
            },
        ],
        DeploymentEventView::ReplicaScaleStarted { namespace, name, old_replicas, new_replicas } => seq![
            SlackFieldView { title: "Deployment"@, value: spec_slash(namespace, name), short: true },
            SlackFieldView {
                title: "Replicas"@,
                value: spec_arrow(old_replicas, new_replicas),
                short: true,
            },
        ],
        DeploymentEventView::ReplicaScaleCompleted { namespace, name, replicas } => seq![
            SlackFieldView { title: "Deployment"@, value: spec_slash(namespace, name), short: true },
            SlackFieldView { title: "Replicas"@, value: spec_int_string(replicas), short: true },
        ],
    }
}

/// The whole attachment an event renders to.
pub open spec fn spec_slack_attachment(
    e: DeploymentEventView,
    language: Language,
) -> SlackAttachmentView {
    SlackAttachmentView {
        color: spec_attachment_color(e),
        text: Some(spec_attachment_title(e, language)),
        fields: Some(spec_attachment_fields(e)),
    }
}

/// Builds an `old → new` transition text.
fn arrow_text(old_value: i64, new_value: i64) -> (r: String)
    ensures
        r@ == spec_arrow(old_value as int, new_value as int),
{
    let mut r = i64_to_string(old_value);
    r.append(" → ");
    let new_text = i64_to_string(new_value);
    r.append(new_text.as_str());
    r
}

/// Builds the `namespace/name` identity text.
fn slash_text(namespace: &String, name: &String) -> (r: String)
    ensures
        r@ == spec_slash(namespace@, name@),
{
    let mut r = namespace.clone();
    r.append("/");
    r.append(name.as_str());
    r
}

/// Renders the Slack attachment for an event in the given language.
pub fn create_slack_attachment(event: &DeploymentEvent, language: Language) -> (a: SlackAttachment)
    ensures
        a@ == spec_slack_attachment(event@, language),
{
    let color: String = match event {
        DeploymentEvent::DeploymentStarted { .. } => "warning".to_owned(),
        DeploymentEvent::DeploymentCompleted { .. } => "good".to_owned(),
        DeploymentEvent::ReplicaScaleStarted { .. } => "warning".to_owned(),
        DeploymentEvent::ReplicaScaleCompleted { .. } => "good".to_owned(),
    };

    let mut fields: Vec<SlackField> = Vec::new();
    let title: String = match event {
        DeploymentEvent::DeploymentStarted {
            namespace,
            name,
            old_generation,
            new_generation,
            old_replicas,
            new_replicas,
        } => {
            let title = match language {
                Language::Korean => "🚀 배포 시작".to_owned(),
                Language::English => "🚀 Deploy Started".to_owned(),
            };
            fields.push(
                SlackField {
                    title: "Deployment".to_owned(),
                    value: slash_text(namespace, name),
                    short: true,
                },
            );
            fields.push(
                SlackField {
                    title: "Revision".to_owned(),
                    value: arrow_text(*old_generation, *new_generation),
                    short: true,
                },
            );
            if let (Some(o), Some(n)) = (*old_replicas, *new_replicas) {
                fields.push(
                    SlackField {
                        title: "Replicas".to_owned(),
                        value: arrow_text(o as i64, n as i64),
                        short: true,
                    },
                );
            }
            title
        },
        DeploymentEvent::DeploymentCompleted {
            namespace,
            name,
            generation,
            replicas,
            replica_changed,
        } => {
            let title = match language {
                Language::Korean => "✅ 배포 완료".to_owned(),
                Language::English => "✅ Deploy Completed".to_owned(),
            };
            fields.push(
                SlackField {
                    title: "Deployment".to_owned(),
                    value: slash_text(namespace, name),
                    short: true,
                },
            );
            fields.push(
                SlackField {
                    title: "Revision".to_owned(),
                    value: i64_to_string(*generation),
                    short: true,
                },
            );
            let replica_value = match *replica_changed {
                Some((o, n)) => arrow_text(o as i64, n as i64),
                None => i32_to_string(*replicas),
            };
            fields.push(
                SlackField { title: "Replicas".to_owned(), value: replica_value, short: true },
            );
            title
        },
        DeploymentEvent::ReplicaScaleStarted { namespace, name, old_replicas, new_replicas } => {
            let title = if *new_replicas > *old_replicas {
                match language {
                    Language::Korean => "📈 스케일 업".to_owned(),
                    Language::English => "📈 Scale Up".to_owned(),
                }
            } else {
                match language {
                    Language::Korean => "📉 스케일 다운".to_owned(),
                    Language::English => "📉 Scale Down".to_owned(),
                }
            };
            fields.push(
                SlackField {
                    title: "Deployment".to_owned(),
                    value: slash_text(namespace, name),
                    short: true,
                },
            );
            fields.push(
                SlackField {
                    title: "Replicas".to_owned(),
                    value: arrow_text(*old_replicas as i64, *new_replicas as i64),
                    short: true,
                },
            );
            title
        },
        DeploymentEvent::ReplicaScaleCompleted { namespace, name, replicas } => {
            let title = match language {
                Language::Korean => "✅ 스케일 완료".to_owned(),
                Language::English => "✅ Scale Completed".to_owned(),
            };
            fields.push(
                SlackField {
                    title: "Deployment".to_owned(),
                    value: slash_text(namespace, name),
                    short: true,
                },
            );
            fields.push(
                SlackField {
                    title: "Replicas".to_owned(),
                    value: i32_to_string(*replicas),
                    short: true,
                },
            );
            title
        },
    };

    let a = SlackAttachment { color, text: Some(title), fields: Some(fields) };
    proof {
        assert(a@.fields.unwrap() =~= spec_attachment_fields(event@));
        assert(a@ =~= spec_slack_attachment(event@, language));
    }
    a
}

} // verus!
