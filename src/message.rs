//! Messages of the wizard's bus, and the screen that each one draws.
use vstd::prelude::*;

verus! {

/// A message on the wizard's bus: one per screen, and the window controls.
#[derive(Clone, Copy, Debug, PartialEq, Eq, Structural)]
pub enum Msg {
    DrawFinish,
    DrawWelcome,
    DrawPlatform,
    DrawCreator,
    DrawDesktop,
    DrawFetch,
    DrawLinuxName,
    DrawLinuxIcon,
    DrawLinuxMethod,
    DrawLinuxRom,
    DrawLinuxDefault(bool),
    DrawLinuxCompress,
    DrawWineName,
    DrawWineIcon,
    DrawWineConfigure,
    DrawWineTricks,
    DrawWineEnvironment,
    DrawWineRom,
    DrawWineCompress,
    DrawRetroarchName,
    DrawRetroarchIcon,
    DrawRetroarchRom,
    DrawRetroarchCore,
    DrawRetroarchBios,
    DrawRetroarchTest,
    DrawRetroarchCompress,
    DrawPcsx2Name,
    DrawPcsx2Icon,
    DrawPcsx2Rom,
    DrawPcsx2Bios,
    DrawPcsx2Test,
    DrawPcsx2Compress,
    DrawRpcs3Name,
    DrawRpcs3Icon,
    DrawRpcs3Rom,
    DrawRpcs3Bios,
    DrawRpcs3Test,
    DrawRpcs3Compress,
    /// Enable every top-level child of the main window.
    WindActivate,
    /// Disable every top-level child of the main window.
    WindDeactivate,
    /// Periodic heartbeat that forces a flush of the window.
    WindUpdate,
    Quit,
}

/// Title of the screen that `m` draws, if it draws one.
pub open spec fn title_spec(m: Msg) -> Option<&'static str> {
    match m {
        Msg::DrawFinish => Some("Thank You for Using GameImage!"),
        Msg::DrawWelcome => Some("Welcome to GameImage"),
        Msg::DrawPlatform => Some("Select a Platform"),
        Msg::DrawCreator => Some("Create Packages to Include in the Image"),
        Msg::DrawDesktop => Some("Select the Desktop Icon"),
        Msg::DrawLinuxName => Some("Select the Application Name"),
        Msg::DrawLinuxIcon => Some("Select the Application Icon"),
        Msg::DrawLinuxMethod => Some("Select How to Install the Application"),
        Msg::DrawLinuxRom => Some("Install the Application"),
        Msg::DrawLinuxDefault(_) => Some("Select the Main Binary"),
        Msg::DrawLinuxCompress => Some("Compress the Created Package"),
        Msg::DrawWineName => Some("Select the Application Name"),
        Msg::DrawWineIcon => Some("Select the Application Icon"),
        Msg::DrawWineConfigure => Some("Configure Wine"),
        Msg::DrawWineTricks => Some("Install Libraries"),
        Msg::DrawWineEnvironment => Some("Configure the Environment"),
        Msg::DrawWineRom => Some("Install/Test the Application(s)"),
        Msg::DrawWineCompress => Some("Compress the Created Package"),
        Msg::DrawRetroarchName => Some("Select the Application Name"),
        Msg::DrawRetroarchIcon => Some("Select the Application Icon"),
        Msg::DrawRetroarchRom => Some("Install the Rom File(s)"),
        Msg::DrawRetroarchCore => Some("Install the Core File(s)"),
        Msg::DrawRetroarchBios => Some("Install the Bios File(s)"),
        Msg::DrawRetroarchTest => Some("Test the Created Package"),
        Msg::DrawRetroarchCompress => Some("Compress the Created Package"),
        Msg::DrawPcsx2Name => Some("Select the Application Name"),
        Msg::DrawPcsx2Icon => Some("Select the Application Icon"),
        Msg::DrawPcsx2Rom => Some("Install the Rom File(s)"),
        Msg::DrawPcsx2Bios => Some("Install the Bios File(s)"),
        Msg::DrawPcsx2Test => Some("Test the Created Package"),
        Msg::DrawPcsx2Compress => Some("Compress the Created Package"),
        Msg::DrawRpcs3Name => Some("Select the Application Name"),
        Msg::DrawRpcs3Icon => Some("Select the Application Icon"),
        Msg::DrawRpcs3Rom => Some("Install the Rom Directory(ies)"),
        Msg::DrawRpcs3Bios => Some("Install the Bios and DLC Files"),
        Msg::DrawRpcs3Test => Some("Test the Created Package"),
        Msg::DrawRpcs3Compress => Some("Compress the Created Package"),
        _ => None,
    }
}

/// Whether `m` draws a screen of the wizard.
pub open spec fn is_screen(m: Msg) -> bool {
    title_spec(m) is Some
}

/// Title of the screen that `m` draws; `None` for a message that draws none.
pub fn title(m: Msg) -> (r: Option<&'static str>)
    ensures
        r == title_spec(m),
{
    match m {
        Msg::DrawFinish => Some("Thank You for Using GameImage!"),
        Msg::DrawWelcome => Some("Welcome to GameImage"),
        Msg::DrawPlatform => Some("Select a Platform"),
        Msg::DrawCreator => Some("Create Packages to Include in the Image"),
        Msg::DrawDesktop => Some("Select the Desktop Icon"),
        Msg::DrawLinuxName => Some("Select the Application Name"),
        Msg::DrawLinuxIcon => Some("Select the Application Icon"),
        Msg::DrawLinuxMethod => Some("Select How to Install the Application"),
        Msg::DrawLinuxRom => Some("Install the Application"),
        Msg::DrawLinuxDefault(_) => Some("Select the Main Binary"),
        Msg::DrawLinuxCompress => Some("Compress the Created Package"),
        Msg::DrawWineName => Some("Select the Application Name"),
        Msg::DrawWineIcon => Some("Select the Application Icon"),
        Msg::DrawWineConfigure => Some("Configure Wine"),
        Msg::DrawWineTricks => Some("Install Libraries"),
        Msg::DrawWineEnvironment => Some("Configure the Environment"),
        Msg::DrawWineRom => Some("Install/Test the Application(s)"),
        Msg::DrawWineCompress => Some("Compress the Created Package"),
        Msg::DrawRetroarchName => Some("Select the Application Name"),
        Msg::DrawRetroarchIcon => Some("Select the Application Icon"),
        Msg::DrawRetroarchRom => Some("Install the Rom File(s)"),
        Msg::DrawRetroarchCore => Some("Install the Core File(s)"),
        Msg::DrawRetroarchBios => Some("Install the Bios File(s)"),
        Msg::DrawRetroarchTest => Some("Test the Created Package"),
        Msg::DrawRetroarchCompress => Some("Compress the Created Package"),
        Msg::DrawPcsx2Name => Some("Select the Application Name"),
        Msg::DrawPcsx2Icon => Some("Select the Application Icon"),
        Msg::DrawPcsx2Rom => Some("Install the Rom File(s)"),
        Msg::DrawPcsx2Bios => Some("Install the Bios File(s)"),
        Msg::DrawPcsx2Test => Some("Test the Created Package"),
        Msg::DrawPcsx2Compress => Some("Compress the Created Package"),
        Msg::DrawRpcs3Name => Some("Select the Application Name"),
        Msg::DrawRpcs3Icon => Some("Select the Application Icon"),
        Msg::DrawRpcs3Rom => Some("Install the Rom Directory(ies)"),
        Msg::DrawRpcs3Bios => Some("Install the Bios and DLC Files"),
        Msg::DrawRpcs3Test => Some("Test the Created Package"),
        Msg::DrawRpcs3Compress => Some("Compress the Created Package"),
        _ => None,
    }
}

} // verus!
