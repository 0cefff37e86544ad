//! What is reported after a check for a newer version.

use crate::text::{chars_of, contains_text, text_contains};
use vstd::prelude::*;
use vstd::string::StringExecFns;

verus! {

/// How a check for a newer version ended.
#[derive(Clone, Debug, PartialEq, Eq)]
pub enum UpdateCheck {
    /// A newer version is offered.
    Available { current_version: String, version: String, body: Option<String>, download_url: String },
    /// Nothing newer is offered.
    UpToDate,
    /// The check failed, with this message.
    Failed(String),
}

/// What is reported to the user interface.
#[derive(Clone, Debug, PartialEq, Eq)]
pub enum UpdateReport {
    Available { current_version: String, new_version: String, body: String, download_url: String },
    UpToDate { current_version: String },
    /// A stand-in for an update, reported by development builds where the
    /// signature of the offered update could not be checked.
    Simulated { current_version: String, new_version: String, debug_message: String, error: String },
}

/// What an [`UpdateCheck`] holds, as plain values.
pub enum UpdateCheckView {
    Available {
        current_version: Seq<char>,
        version: Seq<char>,
        body: Option<Seq<char>>,
        download_url: Seq<char>,
    },
    UpToDate,
    Failed(Seq<char>),
}

/// What an [`UpdateReport`] holds, as plain values.
pub enum UpdateReportView {
    Available {
        current_version: Seq<char>,
        new_version: Seq<char>,
        body: Seq<char>,
        download_url: Seq<char>,
    },
    UpToDate { current_version: Seq<char> },
    Simulated {
        current_version: Seq<char>,
        new_version: Seq<char>,
        debug_message: Seq<char>,
        error: Seq<char>,
    },
}

impl View for UpdateCheck {
    type V = UpdateCheckView;

    open spec fn view(&self) -> UpdateCheckView {
        match self {
            UpdateCheck::Available { current_version, version, body, download_url } => {
                UpdateCheckView::Available {
                    current_version: current_version@,
                    version: version@,
                    body: match body {
                        Some(b) => Some(b@),
                        None => None,
                    },
                    download_url: download_url@,
                }
            },
            UpdateCheck::UpToDate => UpdateCheckView::UpToDate,
            UpdateCheck::Failed(message) => UpdateCheckView::Failed(message@),
        }
    }
}

impl View for UpdateReport {
    type V = UpdateReportView;

    open spec fn view(&self) -> UpdateReportView {
        match self {
            UpdateReport::Available { current_version, new_version, body, download_url } => {
                UpdateReportView::Available {
                    current_version: current_version@,
                    new_version: new_version@,
                    body: body@,
                    download_url: download_url@,
                }
            },
            UpdateReport::UpToDate { current_version } => UpdateReportView::UpToDate {
                current_version: current_version@,
            },
            UpdateReport::Simulated { current_version, new_version, debug_message, error } => {
                UpdateReportView::Simulated {
                    current_version: current_version@,
                    new_version: new_version@,
                    debug_message: debug_message@,
                    error: error@,
                }
            },
        }
    }
}

/// The view of a report or of the message in its place.
pub open spec fn report_view(r: Result<UpdateReport, String>) -> Result<
    UpdateReportView,
    Seq<char>,
> {
    match r {
        Ok(report) => Ok(report@),
        Err(message) => Err(message@),
    }
}

/// A failure that concerns the signature of the offered update.
pub open spec fn is_signature_failure(message: Seq<char>) -> bool {
    contains_text(message, "signature"@)
}

/// The report for the outcome of a check, for the version that is running,
/// in a development build or not.
pub open spec fn report_for(check: UpdateCheckView, running_version: Seq<char>, development: bool)
    -> Result<UpdateReportView, Seq<char>> {
    match check {
        UpdateCheckView::Available { current_version, version, body, download_url } => Ok(
            UpdateReportView::Available {
                current_version,
                new_version: version,
                body: match body {
                    Some(b) => b,
                    None => Seq::empty(),
                },
                download_url,
            },
        ),
        UpdateCheckView::UpToDate => Ok(
            UpdateReportView::UpToDate { current_version: running_version },
        ),
        UpdateCheckView::Failed(message) => if development && is_signature_failure(message) {
            Ok(
                UpdateReportView::Simulated {
                    current_version: running_version,
                    new_version: "0.1.1"@,
                    debug_message: "开发环境中模拟更新"@,
                    error: message,
                },
            )
        } else {
            Err("检查更新失败: "@ + message)
        },
    }
}

/// Reports the outcome of a check for a newer version.
pub fn update_report(check: UpdateCheck, running_version: String, development: bool) -> (r: Result<
    UpdateReport,
    String,
>)
    ensures
        report_view(r) == report_for(check@, running_version@, development),
{
    match check {
        UpdateCheck::Available { current_version, version, body, download_url } => {
            let body = match body {
                Some(b) => b,
                None => String::new(),
            };
            Ok(UpdateReport::Available { current_version, new_version: version, body, download_url })
        },
        UpdateCheck::UpToDate => Ok(UpdateReport::UpToDate { current_version: running_version }),
        UpdateCheck::Failed(message) => {
            let about_signature = text_contains(
                &chars_of(message.as_str()),
                &chars_of("signature"),
            );
            if development && about_signature {
                Ok(
                    UpdateReport::Simulated {
                        current_version: running_version,
                        new_version: String::from_str("0.1.1"),
                        debug_message: String::from_str("开发环境中模拟更新"),
                        error: message,
                    },
                )
            } else {
                Err(String::from_str("检查更新失败: ").concat(message.as_str()))
            }
        },
    }
}

} // verus!
