//! Why a registration did not succeed, and the text shown for each reason.

use vstd::prelude::*;
use vstd::string::*;

verus! {

/// How the portal was found to be out of reach.
#[derive(Debug, PartialEq, Eq)]
pub enum UnavailableCause {
    /// An earlier attempt already failed, and nobody asked to try again.
    KnownUnavailable,
    /// Connecting took longer than allowed.
    ConnectTimedOut,
    /// Connecting failed, with the transport's words.
    ConnectFailed(String),
    /// Creating the session took longer than allowed.
    SessionTimedOut,
    /// Creating the session failed, with the transport's words.
    SessionFailed(String),
}

/// The part of the bind exchange that went wrong.
#[derive(Debug, PartialEq, Eq)]
pub enum BindFailure {
    /// The bind request itself, with the transport's words.
    Request(String),
    /// The portal's response to it, with the portal's words.
    Response(String),
}

/// How the listener failed to get going.
#[derive(Debug, PartialEq, Eq)]
pub enum ListenerFailure {
    /// It could not subscribe to activations, with the transport's words.
    Subscription(String),
    /// It ended before reporting either way.
    ExitedEarly,
}

/// Every way a registration can fail.
#[derive(Debug, PartialEq, Eq)]
pub enum RegisterError {
    /// The portal cannot be reached. Stays so until the caller resets it.
    BrokerUnavailable(UnavailableCause),
    /// The user did not answer the portal's dialog in time. May be retried.
    BindTimeout,
    /// The user dismissed the portal's dialog. May be retried.
    UserCancelled,
    /// Binding failed for another reason. May be retried.
    BindFailed(BindFailure),
    /// Another registration is still running on this manager.
    RegistrationInProgress,
    /// The shortcut was bound, but nothing listens for it.
    ListenerSubscriptionFailed(ListenerFailure),
}

pub enum UnavailableModel {
    KnownUnavailable,
    ConnectTimedOut,
    ConnectFailed(Seq<char>),
    SessionTimedOut,
    SessionFailed(Seq<char>),
}

pub enum BindFailureModel {
    Request(Seq<char>),
    Response(Seq<char>),
}

pub enum ListenerFailureModel {
    Subscription(Seq<char>),
    ExitedEarly,
}

/// Model of a [`RegisterError`].
pub enum ErrorModel {
    BrokerUnavailable(UnavailableModel),
    BindTimeout,
    UserCancelled,
    BindFailed(BindFailureModel),
    RegistrationInProgress,
    ListenerSubscriptionFailed(ListenerFailureModel),
}

impl View for UnavailableCause {
    type V = UnavailableModel;

    open spec fn view(&self) -> UnavailableModel {
        match self {
            UnavailableCause::KnownUnavailable => UnavailableModel::KnownUnavailable,
            UnavailableCause::ConnectTimedOut => UnavailableModel::ConnectTimedOut,
            UnavailableCause::ConnectFailed(detail) => UnavailableModel::ConnectFailed(detail@),
            UnavailableCause::SessionTimedOut => UnavailableModel::SessionTimedOut,
            UnavailableCause::SessionFailed(detail) => UnavailableModel::SessionFailed(detail@),
        }
    }
}

impl View for BindFailure {
    type V = BindFailureModel;

    open spec fn view(&self) -> BindFailureModel {
        match self {
            BindFailure::Request(detail) => BindFailureModel::Request(detail@),
            BindFailure::Response(detail) => BindFailureModel::Response(detail@),
        }
    }
}

impl View for ListenerFailure {
    type V = ListenerFailureModel;

    open spec fn view(&self) -> ListenerFailureModel {
        match self {
            ListenerFailure::Subscription(detail) => ListenerFailureModel::Subscription(detail@),
            ListenerFailure::ExitedEarly => ListenerFailureModel::ExitedEarly,
        }
    }
}

impl View for RegisterError {
    type V = ErrorModel;

    open spec fn view(&self) -> ErrorModel {
        match self {
            RegisterError::BrokerUnavailable(cause) => ErrorModel::BrokerUnavailable(cause@),
            RegisterError::BindTimeout => ErrorModel::BindTimeout,
            RegisterError::UserCancelled => ErrorModel::UserCancelled,
            RegisterError::BindFailed(failure) => ErrorModel::BindFailed(failure@),
            RegisterError::RegistrationInProgress => ErrorModel::RegistrationInProgress,
            RegisterError::ListenerSubscriptionFailed(failure) => ErrorModel::ListenerSubscriptionFailed(failure@),
        }
    }
}

/// The advice that ends most messages.
pub open spec fn fallback_advice() -> Seq<char> {
    ". Please use the in-app recording button instead."@
}

/// `lead`, then the transport's words, then the advice.
pub open spec fn detailed(lead: Seq<char>, detail: Seq<char>) -> Seq<char> {
    lead + detail + fallback_advice()
}

/// The message for each error.
pub open spec fn message_text(error: ErrorModel) -> Seq<char> {
    match error {
        ErrorModel::BrokerUnavailable(UnavailableModel::KnownUnavailable) =>
            "GlobalShortcuts portal is not available on this system. Global hotkeys are not supported on Wayland with your current desktop environment. Please use the in-app recording button instead."@,
        ErrorModel::BrokerUnavailable(UnavailableModel::ConnectTimedOut) =>
            "GlobalShortcuts portal not available (timeout). Your desktop environment may not support global shortcuts via xdg-desktop-portal. Please use the in-app recording button instead."@,
        ErrorModel::BrokerUnavailable(UnavailableModel::ConnectFailed(detail)) =>
            detailed("Failed to connect to GlobalShortcuts portal: "@, detail),
        ErrorModel::BrokerUnavailable(UnavailableModel::SessionTimedOut) =>
            "GlobalShortcuts portal timed out. Please use the in-app recording button instead."@,
        ErrorModel::BrokerUnavailable(UnavailableModel::SessionFailed(detail)) =>
            detailed("Failed to create shortcuts session: "@, detail),
        ErrorModel::BindTimeout =>
            "Shortcut configuration timed out. If a dialog appeared, please try again and configure the shortcut in the system dialog."@,
        ErrorModel::UserCancelled =>
            "Shortcut configuration was cancelled. Please try again and configure the shortcut in the system dialog that appears."@,
        ErrorModel::BindFailed(BindFailureModel::Request(detail)) =>
            detailed("Failed to bind shortcut: "@, detail),
        ErrorModel::BindFailed(BindFailureModel::Response(detail)) =>
            detailed("Failed to get bind response: "@, detail),
        ErrorModel::RegistrationInProgress =>
            "Registration already in progress, please wait for the current registration to complete."@,
        ErrorModel::ListenerSubscriptionFailed(ListenerFailureModel::Subscription(detail)) =>
            "Failed to start shortcut listener: "@ + detail,
        ErrorModel::ListenerSubscriptionFailed(ListenerFailureModel::ExitedEarly) =>
            "Listener task exited unexpectedly before confirming readiness."@,
    }
}

/// Whether a failed attempt marks the portal as out of reach for later ones.
pub open spec fn is_sticky(error: ErrorModel) -> bool {
    error is BrokerUnavailable
}

fn with_detail(lead: &str, detail: &String) -> (text: String)
    ensures
        text@ == detailed(lead@, detail@),
{
    let mut text = String::from_str(lead);
    text.append(detail.as_str());
    text.append(". Please use the in-app recording button instead.");
    text
}

impl RegisterError {
    /// The message for the user. It names a way out rather than the raw
    /// protocol failure alone.
    pub fn message(&self) -> (text: String)
        ensures
            text@ == message_text(self@),
    {
        match self {
            RegisterError::BrokerUnavailable(UnavailableCause::KnownUnavailable) => String::from_str(
                "GlobalShortcuts portal is not available on this system. Global hotkeys are not supported on Wayland with your current desktop environment. Please use the in-app recording button instead.",
            ),
            RegisterError::BrokerUnavailable(UnavailableCause::ConnectTimedOut) => String::from_str(
                "GlobalShortcuts portal not available (timeout). Your desktop environment may not support global shortcuts via xdg-desktop-portal. Please use the in-app recording button instead.",
            ),
            RegisterError::BrokerUnavailable(UnavailableCause::ConnectFailed(detail)) => with_detail(
                "Failed to connect to GlobalShortcuts portal: ",
                detail,
            ),
            RegisterError::BrokerUnavailable(UnavailableCause::SessionTimedOut) => String::from_str(
                "GlobalShortcuts portal timed out. Please use the in-app recording button instead.",
            ),
            RegisterError::BrokerUnavailable(UnavailableCause::SessionFailed(detail)) => with_detail(
                "Failed to create shortcuts session: ",
                detail,
            ),
            RegisterError::BindTimeout => String::from_str(
                "Shortcut configuration timed out. If a dialog appeared, please try again and configure the shortcut in the system dialog.",
            ),
            RegisterError::UserCancelled => String::from_str(
                "Shortcut configuration was cancelled. Please try again and configure the shortcut in the system dialog that appears.",
            ),
            RegisterError::BindFailed(BindFailure::Request(detail)) => with_detail(
                "Failed to bind shortcut: ",
                detail,
            ),
            RegisterError::BindFailed(BindFailure::Response(detail)) => with_detail(
                "Failed to get bind response: ",
                detail,
            ),
            RegisterError::RegistrationInProgress => String::from_str(
                "Registration already in progress, please wait for the current registration to complete.",
            ),
            RegisterError::ListenerSubscriptionFailed(ListenerFailure::Subscription(detail)) => {
                let mut text = String::from_str("Failed to start shortcut listener: ");
                text.append(detail.as_str());
                text
            },
            RegisterError::ListenerSubscriptionFailed(ListenerFailure::ExitedEarly) => String::from_str(
                "Listener task exited unexpectedly before confirming readiness.",
            ),
        }
    }

    /// Whether this error leaves the portal marked as out of reach.
    pub fn marks_unavailable(&self) -> (sticky: bool)
        ensures
            sticky == is_sticky(self@),
    {
        match self {
            RegisterError::BrokerUnavailable(_) => true,
            _ => false,
        }
    }
}

} // verus!
