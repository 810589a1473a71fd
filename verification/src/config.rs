//! The configuration of the application as the library reads it, and how
//! passwords are kept out of what the user interface sees.

use vstd::prelude::*;
use crate::account::Account;
use crate::text::{clone_text, str_eq};

verus! {

/// The configuration of the application.
#[derive(Debug, Clone, PartialEq, Eq)]
pub struct AppConfig {
    /// The configured accounts.
    pub accounts: Vec<Account<String>>,
    /// The directory of the game.
    pub game_path: String,
    /// The identity of the account that was switched to last.
    pub last_active_account: Option<String>,
    /// The colour of the user interface.
    pub theme_color: Option<String>,
    /// Whether closing the window leaves the application in the tray.
    pub close_to_tray: Option<bool>,
    /// The language of the user interface.
    pub language: Option<String>,
    /// Whether a log is kept.
    pub enable_logging: Option<bool>,
    /// Whether the guide was shown.
    pub has_shown_guide: Option<bool>,
    /// How the dashboard lists the accounts.
    pub dashboard_view_mode: Option<String>,
}

/// The text that stands for a password wherever the user interface sees the configuration.
pub open spec fn placeholder() -> Seq<char> {
    "********"@
}

/// The views of a list of accounts.
pub open spec fn accounts_view(accounts: Seq<Account<String>>) -> Seq<Account<Seq<char>>> {
    accounts.map_values(|a: Account<String>| a@)
}

/// The position of the first account with identity `id`, at or after `from`.
pub open spec fn position_of(accounts: Seq<Account<Seq<char>>>, id: Seq<char>, from: int) -> Option<
    int,
>
    decreases accounts.len() - from,
{
    if from < 0 || from >= accounts.len() {
        None
    } else if accounts[from].id == id {
        Some(from)
    } else {
        position_of(accounts, id, from + 1)
    }
}

/// The password that is stored for an account that came back from the user
/// interface: where the account carries the placeholder, the password that
/// `stored` holds for the first account of the same identity, or none if
/// there is no such account; else the password that it carries.
pub open spec fn unmasked_password(
    stored: Seq<Account<Seq<char>>>,
    incoming: Account<Seq<char>>,
) -> Option<Seq<char>> {
    if incoming.win_pass == Some(placeholder()) {
        match position_of(stored, incoming.id, 0) {
            Some(at) => stored[at].win_pass,
            None => None,
        }
    } else {
        incoming.win_pass
    }
}

/// The account with its password as it is stored.
pub open spec fn unmasked(stored: Seq<Account<Seq<char>>>, incoming: Account<Seq<char>>) -> Account<
    Seq<char>,
> {
    Account { win_pass: unmasked_password(stored, incoming), ..incoming }
}

/// The account as the user interface sees it: a password, if there is one,
/// is replaced by the placeholder.
pub open spec fn masked(account: Account<Seq<char>>) -> Account<Seq<char>> {
    Account {
        win_pass: if account.win_pass is Some {
            Some(placeholder())
        } else {
            None
        },
        ..account
    }
}

impl Default for AppConfig {
    fn default() -> (config: AppConfig)
        ensures
            config.accounts@.len() == 0,
            config.game_path@.len() == 0,
            config.last_active_account is None,
            config.theme_color is None,
            config.close_to_tray is None,
            config.language is None,
            config.enable_logging is None,
            config.has_shown_guide is None,
            config.dashboard_view_mode is None,
    {
        AppConfig {
            accounts: Vec::new(),
            game_path: String::new(),
            last_active_account: None,
            theme_color: None,
            close_to_tray: None,
            language: None,
            enable_logging: None,
            has_shown_guide: None,
            dashboard_view_mode: None,
        }
    }
}

fn find_account(accounts: &Vec<Account<String>>, id: &str) -> (r: Option<usize>)
    ensures
        match r {
            Some(at) => position_of(accounts_view(accounts@), id@, 0) == Some(at as int) && at
                < accounts.len(),
            None => position_of(accounts_view(accounts@), id@, 0) is None,
        },
{
    let mut i: usize = 0;
    while i < accounts.len()
        invariant
            position_of(accounts_view(accounts@), id@, 0) == position_of(
                accounts_view(accounts@),
                id@,
                i as int,
            ),
        decreases accounts.len() - i,
    {
        assert(accounts_view(accounts@)[i as int] == accounts@[i as int]@);
        if str_eq(accounts[i].id.as_str(), id) {
            return Some(i);
        }
        i += 1;
    }
    None
}

impl AppConfig {
    /// The configuration as the user interface sees it: every password is
    /// replaced by the placeholder, everything else is as it is.
    pub fn redacted(self) -> (shown: AppConfig)
        ensures
            accounts_view(shown.accounts@) == accounts_view(self.accounts@).map_values(
                |a: Account<Seq<char>>| masked(a),
            ),
            shown.game_path == self.game_path,
            shown.last_active_account == self.last_active_account,
            shown.theme_color == self.theme_color,
            shown.close_to_tray == self.close_to_tray,
            shown.language == self.language,
            shown.enable_logging == self.enable_logging,
            shown.has_shown_guide == self.has_shown_guide,
            shown.dashboard_view_mode == self.dashboard_view_mode,
    {
        let AppConfig {
            accounts,
            game_path,
            last_active_account,
            theme_color,
            close_to_tray,
            language,
            enable_logging,
            has_shown_guide,
            dashboard_view_mode,
        } = self;
        let mut shown: Vec<Account<String>> = Vec::new();
        let mut i: usize = 0;
        while i < accounts.len()
            invariant
                i <= accounts.len(),
                shown@.len() == i,
                forall|k: int| 0 <= k < i ==> shown@[k]@ == masked(accounts@[k]@),
            decreases accounts.len() - i,
        {
            let a = &accounts[i];
            let hidden = match &a.win_pass {
                Some(_) => Some(String::from_str("********")),
                None => None,
            };
            shown.push(
                Account {
                    id: a.id.clone(),
                    win_user: a.win_user.clone(),
                    win_pass: hidden,
                    bnet_account: a.bnet_account.clone(),
                    note: clone_text(&a.note),
                    avatar: clone_text(&a.avatar),
                    password_never_expires: a.password_never_expires,
                },
            );
            i += 1;
        }
        assert(accounts_view(shown@) =~= accounts_view(accounts@).map_values(
            |a: Account<Seq<char>>| masked(a),
        ));
        AppConfig {
            accounts: shown,
            game_path,
            last_active_account,
            theme_color,
            close_to_tray,
            language,
            enable_logging,
            has_shown_guide,
            dashboard_view_mode,
        }
    }

    /// The configuration to store when `self` comes back from the user
    /// interface and `stored` is what is on disk: every account that carries
    /// the placeholder gets back the password that `stored` holds for its
    /// identity, or none; everything else is as it came.
    pub fn save_config(self, stored: &AppConfig) -> (merged: AppConfig)
        ensures
            accounts_view(merged.accounts@) == accounts_view(self.accounts@).map_values(
                |a: Account<Seq<char>>| unmasked(accounts_view(stored.accounts@), a),
            ),
            merged.game_path == self.game_path,
            merged.last_active_account == self.last_active_account,
            merged.theme_color == self.theme_color,
            merged.close_to_tray == self.close_to_tray,
            merged.language == self.language,
            merged.enable_logging == self.enable_logging,
            merged.has_shown_guide == self.has_shown_guide,
            merged.dashboard_view_mode == self.dashboard_view_mode,
    {
        let AppConfig {
            accounts,
            game_path,
            last_active_account,
            theme_color,
            close_to_tray,
            language,
            enable_logging,
            has_shown_guide,
            dashboard_view_mode,
        } = self;
        let mut merged: Vec<Account<String>> = Vec::new();
        let mut i: usize = 0;
        while i < accounts.len()
            invariant
                i <= accounts.len(),
                merged@.len() == i,
                forall|k: int|
                    0 <= k < i ==> merged@[k]@ == unmasked(
                        accounts_view(stored.accounts@),
                        accounts@[k]@,
                    ),
            decreases accounts.len() - i,
        {
            let a = &accounts[i];
            let is_masked = match &a.win_pass {
                Some(p) => str_eq(p.as_str(), "********"),
                None => false,
            };
            let password = if is_masked {
                match find_account(&stored.accounts, a.id.as_str()) {
                    Some(at) => {
                        assert(accounts_view(stored.accounts@)[at as int]
                            == stored.accounts@[at as int]@);
                        clone_text(&stored.accounts[at].win_pass)
                    },
                    None => None,
                }
            } else {
                clone_text(&a.win_pass)
            };
            merged.push(
                Account {
                    id: a.id.clone(),
                    win_user: a.win_user.clone(),
                    win_pass: password,
                    bnet_account: a.bnet_account.clone(),
                    note: clone_text(&a.note),
                    avatar: clone_text(&a.avatar),
                    password_never_expires: a.password_never_expires,
                },
            );
            i += 1;
        }
        assert(accounts_view(merged@) =~= accounts_view(accounts@).map_values(
            |a: Account<Seq<char>>| unmasked(accounts_view(stored.accounts@), a),
        ));
        AppConfig {
            accounts: merged,
            game_path,
            last_active_account,
            theme_color,
            close_to_tray,
            language,
            enable_logging,
            has_shown_guide,
            dashboard_view_mode,
        }
    }
}

/// A password that is not the placeholder survives the way to the user
/// interface and back: masking a stored configuration and unmasking what
/// comes back unchanged gives every account the password that the first
/// stored account of its identity has.
pub proof fn law_mask_round_trip(stored: Seq<Account<Seq<char>>>, at: int)
    requires
        0 <= at < stored.len(),
        position_of(stored, stored[at].id, 0) == Some(at),
    ensures
        stored[at].win_pass is Some ==> unmasked(stored, masked(stored[at])) == stored[at],
        stored[at].win_pass is None ==> unmasked(stored, masked(stored[at])) == stored[at],
{
}

} // verus!
