//! How a command comes to a signed-in profile: credentials, connection, login.

use vstd::prelude::*;

use crate::config::AppConfig;
use crate::error::AppError;
use crate::error::Result;
use crate::report;
use crate::text;

verus! {

/// What a sign-in is for: the sign-in itself, or another command that needs it.
#[derive(Debug, Clone, Copy, PartialEq, Eq, Structural)]
pub enum Purpose {
    SignIn,
    Command,
}

/// What comes next.
#[derive(Debug, Clone, Copy, PartialEq, Eq, Structural)]
pub enum Stage {
    /// Ask whether to add credentials.
    OfferCredentials,
    /// Ask for credentials.
    EnterCredentials,
    /// Connect, and find out whether a user is signed in.
    Connect,
    /// Ask whether to sign in.
    OfferLogin,
    /// Sign in.
    Login,
    /// Store the credentials.
    Persist,
    /// A user is signed in; the profile becomes the current one.
    Done,
}

/// The way to a signed-in profile.
#[derive(Debug, Clone, Copy, PartialEq, Eq, Structural)]
pub struct Onboarding {
    pub purpose: Purpose,
    pub stage: Stage,
    /// Whether the credentials were asked for on the way.
    pub entered: bool,
    /// Whether a user is signed in.
    pub authorized: bool,
    /// Whether that user signed in on the way.
    pub logged_in: bool,
}

impl Onboarding {
    /// What holds all the way: it ends only with a signed-in user, and credentials are stored only
    /// once a user is signed in, and only where the user gave them or signed in.
    pub open spec fn wf(self) -> bool {
        &&& self.stage == Stage::Done ==> self.authorized
        &&& self.stage == Stage::Persist ==> self.authorized && (self.entered || self.logged_in
            || self.purpose == Purpose::SignIn)
        &&& self.purpose == Purpose::SignIn ==> self.stage != Stage::OfferCredentials && self.stage
            != Stage::OfferLogin
        &&& self.logged_in ==> self.authorized
    }

    /// The beginning, with or without credentials. A command asks before it asks for credentials.
    pub fn new(purpose: Purpose, has_credentials: bool) -> (out: Onboarding)
        ensures
            out.wf(),
            out.purpose == purpose,
            !out.entered,
            !out.authorized,
            !out.logged_in,
            out.stage == if has_credentials {
                Stage::Connect
            } else if purpose == Purpose::SignIn {
                Stage::EnterCredentials
            } else {
                Stage::OfferCredentials
            },
    {
        let stage = if has_credentials {
            Stage::Connect
        } else {
            match purpose {
                Purpose::SignIn => Stage::EnterCredentials,
                Purpose::Command => Stage::OfferCredentials,
            }
        };
        Onboarding { purpose, stage, entered: false, authorized: false, logged_in: false }
    }

    /// Goes on after an answer to an offer. A refusal ends the way.
    pub fn on_answer(&mut self, yes: bool, profile: &str) -> (out: Result<()>)
        requires
            old(self).wf(),
        ensures
            final(self).wf(),
            match old(self).stage {
                Stage::OfferCredentials => if yes {
                    out is Ok && *final(self) == (Onboarding {
                        stage: Stage::EnterCredentials,
                        ..*old(self)
                    })
                } else {
                    &&& *final(self) == *old(self)
                    &&& out matches Err(AppError::Authentication(detail))
                    &&& detail@
                        == "Telegram API credentials are not configured; run `tgbacky api add` when you are ready"@
                },
                Stage::OfferLogin => if yes {
                    out is Ok && *final(self) == (Onboarding { stage: Stage::Login, ..*old(self) })
                } else {
                    &&& *final(self) == *old(self)
                    &&& out matches Err(AppError::Authentication(detail))
                    &&& detail@ == "Telegram login is required for profile `"@ + profile@
                        + "`; run `tgbacky auth --profile "@ + profile@ + "` to sign in"@
                },
                _ => out is Ok && *final(self) == *old(self),
            },
    {
        match self.stage {
            Stage::OfferCredentials => {
                if !yes {
                    return Err(
                        AppError::Authentication(
                            "Telegram API credentials are not configured; run `tgbacky api add` when you are ready".to_string(),
                        ),
                    );
                }
                self.stage = Stage::EnterCredentials;
                Ok(())
            },
            Stage::OfferLogin => {
                if !yes {
                    let mut detail = text::concat(
                        "Telegram login is required for profile `",
                        profile,
                    );
                    detail.append("`; run `tgbacky auth --profile ");
                    detail.append(profile);
                    detail.append("` to sign in");
                    return Err(AppError::Authentication(detail));
                }
                self.stage = Stage::Login;
                Ok(())
            },
            _ => Ok(()),
        }
    }

    /// Goes on after credentials were entered.
    pub fn on_credentials(&mut self)
        requires
            old(self).wf(),
        ensures
            final(self).wf(),
            *final(self) == if old(self).stage == Stage::EnterCredentials {
                Onboarding { stage: Stage::Connect, entered: true, ..*old(self) }
            } else {
                *old(self)
            },
    {
        if let Stage::EnterCredentials = self.stage {
            self.stage = Stage::Connect;
            self.entered = true;
        }
    }

    /// Goes on once connected. Without a signed-in user a sign-in follows; a command asks first,
    /// unless the user has just given credentials. With one, credentials are stored where the user
    /// gave them or asked to sign in.
    pub fn on_connected(&mut self, authorized: bool)
        requires
            old(self).wf(),
        ensures
            final(self).wf(),
            *final(self) == if old(self).stage != Stage::Connect {
                *old(self)
            } else if authorized {
                Onboarding {
                    stage: if old(self).entered || old(self).purpose == Purpose::SignIn {
                        Stage::Persist
                    } else {
                        Stage::Done
                    },
                    authorized: true,
                    ..*old(self)
                }
            } else {
                Onboarding {
                    stage: if old(self).entered || old(self).purpose == Purpose::SignIn {
                        Stage::Login
                    } else {
                        Stage::OfferLogin
                    },
                    ..*old(self)
                }
            },
    {
        if let Stage::Connect = self.stage {
            let given: bool = self.entered || matches!(self.purpose, Purpose::SignIn);
            if authorized {
                self.authorized = true;
                self.stage = if given {
                    Stage::Persist
                } else {
                    Stage::Done
                };
            } else {
                self.stage = if given {
                    Stage::Login
                } else {
                    Stage::OfferLogin
                };
            }
        }
    }

    /// Goes on after a sign-in that succeeded.
    pub fn on_login(&mut self)
        requires
            old(self).wf(),
        ensures
            final(self).wf(),
            *final(self) == if old(self).stage == Stage::Login {
                Onboarding {
                    stage: Stage::Persist,
                    authorized: true,
                    logged_in: true,
                    ..*old(self)
                }
            } else {
                *old(self)
            },
    {
        if let Stage::Login = self.stage {
            self.authorized = true;
            self.logged_in = true;
            self.stage = Stage::Persist;
        }
    }

    /// Goes on after the credentials were stored, or the user decided against it.
    pub fn on_persisted(&mut self)
        requires
            old(self).wf(),
        ensures
            final(self).wf(),
            *final(self) == if old(self).stage == Stage::Persist {
                Onboarding { stage: Stage::Done, ..*old(self) }
            } else {
                *old(self)
            },
    {
        if let Stage::Persist = self.stage {
            self.stage = Stage::Done;
        }
    }
}

/// What is said of a user who is signed in.
pub open spec fn signed_in_lines(way: Onboarding, profile: Seq<char>, session_path: Seq<char>) -> Seq<
    Seq<char>,
> {
    if way.logged_in {
        seq![
            "Authorization completed successfully for profile `"@ + profile + "`."@,
            "Session saved to "@ + session_path + "."@,
        ]
    } else if way.purpose == Purpose::SignIn {
        seq![
            "Telegram session for profile `"@ + profile + "` is already authorized at "@
                + session_path + "."@,
        ]
    } else {
        seq![
            "Found an already authorized Telegram session for profile `"@ + profile + "`."@,
        ]
    }
}

/// What is said of a user who is signed in.
pub fn signed_in(way: &Onboarding, profile: &str, session_path: &str) -> (lines: Vec<String>)
    ensures
        text::texts(lines@) == signed_in_lines(*way, profile@, session_path@),
{
    let mut lines: Vec<String> = Vec::new();
    if way.logged_in {
        let mut first = text::concat("Authorization completed successfully for profile `", profile);
        first.append("`.");
        let mut second = text::concat("Session saved to ", session_path);
        second.append(".");
        report::push_line(&mut lines, first.as_str());
        report::push_line(&mut lines, second.as_str());
    } else if way.purpose == Purpose::SignIn {
        let mut line = text::concat("Telegram session for profile `", profile);
        line.append("` is already authorized at ");
        line.append(session_path);
        line.append(".");
        report::push_line(&mut lines, line.as_str());
    } else {
        let mut line = text::concat(
            "Found an already authorized Telegram session for profile `",
            profile,
        );
        line.append("`.");
        report::push_line(&mut lines, line.as_str());
    }
    assert(text::texts(lines@) =~= signed_in_lines(*way, profile@, session_path@));
    lines
}

/// What is said after a login: what can be done next, and what the profile is made of.
pub open spec fn next_steps_lines(config: AppConfig, command: Option<Seq<char>>) -> Seq<Seq<char>> {
    seq![
        "Useful next commands:"@,
        "- switch to a different account: tgbacky auth --profile other"@,
        "- list configured profiles: tgbacky profiles list"@,
        "- delete this profile and its local data: tgbacky profiles delete --profile "@
            + config.profile@ + " --yes"@,
        "Profile summary:"@,
        "- profile: "@ + config.profile@,
        "- session: "@ + config.session_path@,
        "- state db: "@ + config.db_path@,
        "- downloads: "@ + config.download_dir@,
        match command {
            Some(name) => "- next step: continue `tgbacky "@ + name + "` with this profile"@,
            None => "- next step: use this profile with commands like `tgbacky export --profile "@
                + config.profile@ + " --chat @example`"@,
        },
    ]
}

/// What is said after a login.
pub fn next_steps(config: &AppConfig, command: Option<&str>) -> (lines: Vec<String>)
    ensures
        text::texts(lines@) == next_steps_lines(*config, text::opt_str(command)),
{
    let mut removal = text::concat(
        "- delete this profile and its local data: tgbacky profiles delete --profile ",
        config.profile.as_str(),
    );
    removal.append(" --yes");
    let last = match command {
        Some(name) => {
            let mut line = text::concat("- next step: continue `tgbacky ", name);
            line.append("` with this profile");
            line
        },
        None => {
            let mut line = text::concat(
                "- next step: use this profile with commands like `tgbacky export --profile ",
                config.profile.as_str(),
            );
            line.append(" --chat @example`");
            line
        },
    };
    let mut lines: Vec<String> = Vec::new();
    report::push_line(&mut lines, "Useful next commands:");
    report::push_line(
        &mut lines,
        "- switch to a different account: tgbacky auth --profile other",
    );
    report::push_line(&mut lines, "- list configured profiles: tgbacky profiles list");
    report::push_line(&mut lines, removal.as_str());
    report::push_line(&mut lines, "Profile summary:");
    report::push_text(&mut lines, "- profile: ", config.profile.as_str());
    report::push_text(&mut lines, "- session: ", config.session_path.as_str());
    report::push_text(&mut lines, "- state db: ", config.db_path.as_str());
    report::push_text(&mut lines, "- downloads: ", config.download_dir.as_str());
    report::push_line(&mut lines, last.as_str());
    assert(text::texts(lines@) =~= next_steps_lines(*config, text::opt_str(command)));
    lines
}

} // verus!
