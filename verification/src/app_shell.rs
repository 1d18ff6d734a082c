//! The application's frame around the pages: which page is shown, the toast message, the
//! first-run setup, closing, and the connection to the sync server.

use vstd::prelude::*;

use crate::page::Page;

verus! {

/// The state of the application's frame.
pub struct AppShell {
    /// The page shown.
    pub current_page: Page,
    /// Whether the first-run setup wizard is shown.
    pub is_setting_up_server: bool,
    /// Whether the window is closing.
    pub is_closing: bool,
    /// Whether a toast is shown.
    pub show_toast: bool,
    /// Whether the toast reports a success.
    pub is_good_toast: bool,
    /// The toast's text.
    pub toast_text: String,
    /// Whether the sync server is connected.
    pub is_connected_to_server: bool,
}

/// What happens to the frame.
pub enum AppEvent {
    /// The user switches to a page.
    ChangePage(Page),
    /// A toast is to be shown: whether it reports a success, and its text.
    ShowToast(bool, String),
    /// The toast's time is up.
    ToastExpired,
    /// The user asks to close the window.
    CloseWindowRequest,
    /// The settings are to be saved.
    SaveConfig,
    /// The sync server connected.
    ServerConnected,
    /// The sync server disconnected.
    ServerDisconnected,
    /// A message is to be sent to the sync server.
    SendServerMessage(String),
    /// The setup wizard finished.
    FinishSetup,
}

/// What the frame asks to be done next.
pub enum AppAction {
    /// Nothing.
    Nothing,
    /// Hide the toast again after five seconds.
    ExpireToastLater,
    /// Run each page's closing work, then close the window.
    CloseAfterClosingTasks,
    /// Write the settings to their file.
    SaveConfig,
    /// Send the message to the server.
    SendToServer(String),
    /// Report that the server is not connected.
    ReportDisconnected,
    /// Take the settings the setup wizard made, then save them.
    AdoptSetupConfigAndSave,
}

impl AppShell {
    /// The frame on start: the page chosen in the settings, and the setup wizard when no saved
    /// settings were found.
    pub fn new(default_page_on_open: Page, has_saved_config: bool) -> (r: AppShell)
        ensures
            r.current_page == default_page_on_open,
            r.is_setting_up_server == !has_saved_config,
            !r.is_closing,
            !r.show_toast,
            r.is_good_toast,
            r.toast_text@.len() == 0,
            !r.is_connected_to_server,
    {
        AppShell {
            current_page: default_page_on_open,
            is_setting_up_server: !has_saved_config,
            is_closing: false,
            show_toast: false,
            is_good_toast: true,
            toast_text: String::new(),
            is_connected_to_server: false,
        }
    }

    /// Handles `event` and says what has to be done next.
    pub fn update(&mut self, event: AppEvent) -> (r: AppAction)
        ensures
            match event {
                AppEvent::ChangePage(p) => *final(self) == (AppShell { current_page: p, ..*old(self) })
                    && r is Nothing,
                AppEvent::ShowToast(good, text) => *final(self) == (AppShell {
                    show_toast: true,
                    is_good_toast: good,
                    toast_text: text,
                    ..*old(self)
                }) && r is ExpireToastLater,
                AppEvent::ToastExpired => {
                    &&& *final(self) == (AppShell {
                        show_toast: false,
                        is_good_toast: true,
                        toast_text: final(self).toast_text,
                        ..*old(self)
                    })
                    &&& final(self).toast_text@.len() == 0
                    &&& r is Nothing
                },
                AppEvent::CloseWindowRequest => *final(self) == (AppShell {
                    is_closing: true,
                    ..*old(self)
                }) && r is CloseAfterClosingTasks,
                AppEvent::SaveConfig => *final(self) == *old(self) && r is SaveConfig,
                AppEvent::ServerConnected => *final(self) == (AppShell {
                    is_connected_to_server: true,
                    ..*old(self)
                }) && r is Nothing,
                AppEvent::ServerDisconnected => *final(self) == (AppShell {
                    is_connected_to_server: false,
                    ..*old(self)
                }) && r is Nothing,
                AppEvent::SendServerMessage(m) => *final(self) == *old(self) && if old(
                    self,
                ).is_connected_to_server {
                    r == AppAction::SendToServer(m)
                } else {
                    r is ReportDisconnected
                },
                AppEvent::FinishSetup => *final(self) == (AppShell {
                    is_setting_up_server: false,
                    ..*old(self)
                }) && r is AdoptSetupConfigAndSave,
            },
    {
        match event {
            AppEvent::ChangePage(p) => {
                self.current_page = p;
                AppAction::Nothing
            },
            AppEvent::ShowToast(good, text) => {
                self.show_toast = true;
                self.is_good_toast = good;
                self.toast_text = text;
                AppAction::ExpireToastLater
            },
            AppEvent::ToastExpired => {
                self.show_toast = false;
                self.is_good_toast = true;
                self.toast_text = String::new();
                AppAction::Nothing
            },
            AppEvent::CloseWindowRequest => {
                self.is_closing = true;
                AppAction::CloseAfterClosingTasks
            },
            AppEvent::SaveConfig => AppAction::SaveConfig,
            AppEvent::ServerConnected => {
                self.is_connected_to_server = true;
                AppAction::Nothing
            },
            AppEvent::ServerDisconnected => {
                self.is_connected_to_server = false;
                AppAction::Nothing
            },
            AppEvent::SendServerMessage(m) => {
                if self.is_connected_to_server {
                    AppAction::SendToServer(m)
                } else {
                    AppAction::ReportDisconnected
                }
            },
            AppEvent::FinishSetup => {
                self.is_setting_up_server = false;
                AppAction::AdoptSetupConfigAndSave
            },
        }
    }
}

} // verus!
