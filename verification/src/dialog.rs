//! The error dialogs: what the user is told when the launcher cannot go on.

use crate::probe::MINIMUM_JAVA_VERSION;
use vstd::prelude::*;
use vstd::string::StringExecFns;

verus! {

/// The title of every dialog.
pub const DIALOG_TITLE: &'static str = "SlimeVR";

/// A fault of the web view runtime the user can mend with the help of the
/// documentation. Its dialog offers to open the documentation, or to cancel.
#[derive(Clone, Copy, Debug, PartialEq, Eq, Structural)]
pub enum Notice {
    /// The web view runtime is not installed.
    WebviewMissing,
    /// The web view runtime is installed, but no window could be made.
    WebviewFaulty,
}

/// What the user chose in a dialog that offers the documentation.
#[derive(Clone, Copy, Debug, PartialEq, Eq, Structural)]
pub enum DialogChoice {
    OpenDocumentation,
    Cancel,
}

impl Notice {
    pub open spec fn description_text(self) -> Seq<char> {
        match self {
            Notice::WebviewMissing =>
                "Couldn't find WebView2 installed. You can install it with the SlimeVR installer"@,
            Notice::WebviewFaulty =>
                "You seem to have a faulty installation of WebView2. You can check a guide on how to fix that in the docs!"@,
        }
    }

    pub open spec fn documentation_text(self) -> Seq<char> {
        match self {
            Notice::WebviewMissing =>
                "https://docs.slimevr.dev/server-setup/installing-and-connecting.html#install-the-latest-slimevr-installer"@,
            Notice::WebviewFaulty =>
                "https://docs.slimevr.dev/common-issues.html#webview2-is-missing--slimevr-gui-crashes-immediately--panicked-at--webview2error"@,
        }
    }

    /// What the dialog says.
    pub fn description(self) -> (text: &'static str)
        ensures
            text@ == self.description_text(),
    {
        match self {
            Notice::WebviewMissing =>
                "Couldn't find WebView2 installed. You can install it with the SlimeVR installer",
            Notice::WebviewFaulty =>
                "You seem to have a faulty installation of WebView2. You can check a guide on how to fix that in the docs!",
        }
    }

    /// The page of the documentation that helps with this fault.
    pub fn documentation_url(self) -> (url: &'static str)
        ensures
            url@ == self.documentation_text(),
    {
        match self {
            Notice::WebviewMissing =>
                "https://docs.slimevr.dev/server-setup/installing-and-connecting.html#install-the-latest-slimevr-installer",
            Notice::WebviewFaulty =>
                "https://docs.slimevr.dev/common-issues.html#webview2-is-missing--slimevr-gui-crashes-immediately--panicked-at--webview2error",
        }
    }

    /// The page to open in the browser after the user's choice: the
    /// documentation of this fault if the user asked for it, nothing after
    /// `Cancel`.
    pub fn page_to_open(self, choice: DialogChoice) -> (page: Option<&'static str>)
        ensures
            page is Some <==> choice == DialogChoice::OpenDocumentation,
            page matches Some(url) ==> url@ == self.documentation_text(),
    {
        match choice {
            DialogChoice::OpenDocumentation => Some(self.documentation_url()),
            DialogChoice::Cancel => None,
        }
    }
}

/// The decimal digit `digit`.
pub open spec fn digit_text(digit: nat) -> Seq<char> {
    if digit == 0 {
        "0"@
    } else if digit == 1 {
        "1"@
    } else if digit == 2 {
        "2"@
    } else if digit == 3 {
        "3"@
    } else if digit == 4 {
        "4"@
    } else if digit == 5 {
        "5"@
    } else if digit == 6 {
        "6"@
    } else if digit == 7 {
        "7"@
    } else if digit == 8 {
        "8"@
    } else {
        "9"@
    }
}

/// `number` in decimal notation, without leading zeros.
pub open spec fn decimal_text(number: nat) -> Seq<char>
    decreases number,
{
    if number < 10 {
        digit_text(number)
    } else {
        decimal_text(number / 10) + digit_text(number % 10)
    }
}

fn digit(value: u32) -> (text: &'static str)
    requires
        value < 10,
    ensures
        text@ == digit_text(value as nat),
{
    if value == 0 {
        "0"
    } else if value == 1 {
        "1"
    } else if value == 2 {
        "2"
    } else if value == 3 {
        "3"
    } else if value == 4 {
        "4"
    } else if value == 5 {
        "5"
    } else if value == 6 {
        "6"
    } else if value == 7 {
        "7"
    } else if value == 8 {
        "8"
    } else {
        "9"
    }
}

/// Writes `number` in decimal notation.
pub fn decimal(number: u32) -> (text: String)
    ensures
        text@ == decimal_text(number as nat),
    decreases number,
{
    if number < 10 {
        digit(number).to_owned()
    } else {
        let mut text = decimal(number / 10);
        text.append(digit(number % 10));
        text
    }
}

/// What the user is told when no usable Java runtime was found.
pub open spec fn missing_java_text() -> Seq<char> {
    "Couldn't find a compatible Java version, please download Java "@ + decimal_text(
        MINIMUM_JAVA_VERSION as nat,
    ) + " or higher"@
}

pub fn missing_java_message() -> (text: String)
    ensures
        text@ == missing_java_text(),
{
    let mut text = "Couldn't find a compatible Java version, please download Java ".to_owned();
    let version = decimal(MINIMUM_JAVA_VERSION);
    text.append(version.as_str());
    text.append(" or higher");
    text
}

/// With the present [`MINIMUM_JAVA_VERSION`] the user is asked for Java 17.
pub proof fn lemma_missing_java_text()
    ensures
        missing_java_text()
            == "Couldn't find a compatible Java version, please download Java 17 or higher"@,
{
    reveal_strlit("1");
    reveal_strlit("7");
    reveal_strlit("Couldn't find a compatible Java version, please download Java ");
    reveal_strlit(" or higher");
    reveal_strlit("Couldn't find a compatible Java version, please download Java 17 or higher");
    reveal_with_fuel(decimal_text, 2);
    assert(decimal_text(17) =~= "1"@ + "7"@);
    assert(missing_java_text()
        =~= "Couldn't find a compatible Java version, please download Java 17 or higher"@);
}

/// A fault that ends the launch. It is shown to the user once, in a dialog
/// of its own, and the launcher then leaves.
#[derive(Clone, Debug, PartialEq, Eq)]
pub enum Fault {
    /// No usable Java runtime: none is bundled and none is installed.
    MissingJava,
    /// The interface could not be built; the text says why.
    Interface(String),
}

impl Fault {
    pub open spec fn text(&self) -> Seq<char> {
        match self {
            Fault::MissingJava => missing_java_text(),
            Fault::Interface(reason) => reason@,
        }
    }

    /// What the dialog says.
    pub fn message(&self) -> (text: String)
        ensures
            text@ == self.text(),
    {
        match self {
            Fault::MissingJava => missing_java_message(),
            Fault::Interface(reason) => reason.clone(),
        }
    }
}

} // verus!
