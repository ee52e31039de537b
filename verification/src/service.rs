//! Per-user background service: the systemd user unit (Linux), the Task
//! Scheduler task and the PowerShell scripts that manage it (Windows), and
//! the refusal everywhere else.
//!
//! Deliberately per-user, not a Windows Service or systemd *system* unit:
//! both need elevated privileges and run outside the interactive session,
//! which breaks USB-notification delivery reliability.

use crate::radix::{decimal, push_decimal};
use crate::Platform;
use vstd::prelude::*;

verus! {

/// The systemd user unit's name.
pub open spec fn unit_name() -> Seq<char> {
    "bad_kvm_switch.service"@
}

/// The name the task is registered under in the user's Task Scheduler
/// library.
pub open spec fn task_name() -> Seq<char> {
    "bad_kvm_switch"@
}

/// The systemd user unit's name.
pub fn unit_name_text() -> (s: String)
    ensures
        s@ == unit_name(),
{
    String::from_str("bad_kvm_switch.service")
}

/// The installed binary's file name on `platform`.
pub open spec fn binary_file_name(platform: Platform) -> Seq<char> {
    if platform == Platform::Windows {
        "bad_kvm_switch.exe"@
    } else {
        "bad_kvm_switch"@
    }
}

/// The file name the binary is copied to in the stable per-user install
/// directory.
pub fn installed_binary_file_name(platform: Platform) -> (s: String)
    ensures
        s@ == binary_file_name(platform),
{
    if platform == Platform::Windows {
        String::from_str("bad_kvm_switch.exe")
    } else {
        String::from_str("bad_kvm_switch")
    }
}

/// The unit file that runs `binary` at login and restarts it two seconds
/// after a failure.
pub open spec fn systemd_unit_chars(binary: Seq<char>) -> Seq<char> {
    "[Unit]\nDescription=bad_kvm_switch - automatic DDC/CI monitor switching\nAfter=graphical-session.target\n\n[Service]\nExecStart=\""@ + binary + "\"\nRestart=on-failure\nRestartSec=2\n\n[Install]\nWantedBy=default.target\n"@
}

/// The contents of the systemd user unit for the installed `binary`.
pub fn systemd_unit(binary: &str) -> (s: String)
    ensures
        s@ == systemd_unit_chars(binary@),
{
    let mut s = String::from_str("[Unit]\nDescription=bad_kvm_switch - automatic DDC/CI monitor switching\nAfter=graphical-session.target\n\n[Service]\nExecStart=\"");
    s.append(binary);
    s.append("\"\nRestart=on-failure\nRestartSec=2\n\n[Install]\nWantedBy=default.target\n");
    s
}

/// The account the task runs as: `DOMAIN\user` when a non-empty domain is
/// known, else the bare user name.
pub open spec fn task_principal_chars(user_name: Seq<char>, domain: Option<Seq<char>>) -> Seq<char> {
    match domain {
        Some(d) => if d.len() > 0 {
            d + seq!['\\'] + user_name
        } else {
            user_name
        },
        None => user_name,
    }
}

/// The account the task runs as, from `%USERNAME%` and `%USERDOMAIN%`.
pub fn task_principal(user_name: &str, domain: Option<&str>) -> (s: String)
    ensures
        s@ == task_principal_chars(
            user_name@,
            match domain {
                Some(d) => Some(d@),
                None => None,
            },
        ),
{
    match domain {
        Some(d) => {
            if d.unicode_len() > 0 {
                let mut s = String::from_str(d);
                proof {
                    reveal_strlit("\\");
                }
                s.append("\\");
                s.append(user_name);
                s
            } else {
                String::from_str(user_name)
            }
        },
        None => String::from_str(user_name),
    }
}

/// The Task Scheduler definition: started at logon and re-run every
/// minute (the supervisor that brings a dead instance back), never two at
/// once (`IgnoreNew`), in the user's interactive session, with no time
/// limit.
pub open spec fn task_xml_chars(user: Seq<char>, binary: Seq<char>, working_dir: Seq<char>) -> Seq<char> {
    "<Task xmlns=\"http://schemas.microsoft.com/windows/2004/02/mit/task\">\n  <RegistrationInfo>\n    <Description>bad_kvm_switch - automatic DDC/CI monitor switching</Description>\n  </RegistrationInfo>\n  <Triggers>\n    <LogonTrigger>\n      <Enabled>true</Enabled>\n      <UserId>"@ + user + "</UserId>\n    </LogonTrigger>\n    <TimeTrigger>\n      <Enabled>true</Enabled>\n      <StartBoundary>2020-01-01T00:00:00</StartBoundary>\n      <Repetition>\n        <Interval>PT1M</Interval>\n        <StopAtDurationEnd>false</StopAtDurationEnd>\n      </Repetition>\n    </TimeTrigger>\n  </Triggers>\n  <Principals>\n    "@ + task_principal_block(user) + "\n  </Principals>\n  <Settings>\n    <MultipleInstancesPolicy>IgnoreNew</MultipleInstancesPolicy>\n    <DisallowStartIfOnBatteries>false</DisallowStartIfOnBatteries>\n    <StopIfGoingOnBatteries>false</StopIfGoingOnBatteries>\n    <StartWhenAvailable>true</StartWhenAvailable>\n    <RunOnlyIfIdle>false</RunOnlyIfIdle>\n    <IdleSettings>\n      <StopOnIdleEnd>false</StopOnIdleEnd>\n      <RestartOnIdle>false</RestartOnIdle>\n    </IdleSettings>\n    <AllowStartOnDemand>true</AllowStartOnDemand>\n    <Enabled>true</Enabled>\n    <ExecutionTimeLimit>PT0S</ExecutionTimeLimit>\n  </Settings>\n  <Actions Context=\"Author\">\n    <Exec>\n      <Command>"@ + binary + "</Command>\n      <WorkingDirectory>"@ + working_dir + "</WorkingDirectory>\n    </Exec>\n  </Actions>\n</Task>"@
}

/// The `<Principal>` element for `user`.
pub open spec fn task_principal_block(user: Seq<char>) -> Seq<char> {
    "<Principal id=\"Author\">\n      <UserId>"@ + user + "</UserId>\n      <LogonType>InteractiveToken</LogonType>\n      <RunLevel>LeastPrivilege</RunLevel>\n    </Principal>"@
}

/// The task definition, as Task Scheduler XML.
pub fn task_xml(user: &str, binary: &str, working_dir: &str) -> (s: String)
    ensures
        s@ == task_xml_chars(user@, binary@, working_dir@),
{
    let mut s = String::from_str("<Task xmlns=\"http://schemas.microsoft.com/windows/2004/02/mit/task\">\n  <RegistrationInfo>\n    <Description>bad_kvm_switch - automatic DDC/CI monitor switching</Description>\n  </RegistrationInfo>\n  <Triggers>\n    <LogonTrigger>\n      <Enabled>true</Enabled>\n      <UserId>");
    s.append(user);
    s.append("</UserId>\n    </LogonTrigger>\n    <TimeTrigger>\n      <Enabled>true</Enabled>\n      <StartBoundary>2020-01-01T00:00:00</StartBoundary>\n      <Repetition>\n        <Interval>PT1M</Interval>\n        <StopAtDurationEnd>false</StopAtDurationEnd>\n      </Repetition>\n    </TimeTrigger>\n  </Triggers>\n  <Principals>\n    ");
    s.append("<Principal id=\"Author\">\n      <UserId>");
    s.append(user);
    s.append("</UserId>\n      <LogonType>InteractiveToken</LogonType>\n      <RunLevel>LeastPrivilege</RunLevel>\n    </Principal>");
    s.append("\n  </Principals>\n  <Settings>\n    <MultipleInstancesPolicy>IgnoreNew</MultipleInstancesPolicy>\n    <DisallowStartIfOnBatteries>false</DisallowStartIfOnBatteries>\n    <StopIfGoingOnBatteries>false</StopIfGoingOnBatteries>\n    <StartWhenAvailable>true</StartWhenAvailable>\n    <RunOnlyIfIdle>false</RunOnlyIfIdle>\n    <IdleSettings>\n      <StopOnIdleEnd>false</StopOnIdleEnd>\n      <RestartOnIdle>false</RestartOnIdle>\n    </IdleSettings>\n    <AllowStartOnDemand>true</AllowStartOnDemand>\n    <Enabled>true</Enabled>\n    <ExecutionTimeLimit>PT0S</ExecutionTimeLimit>\n  </Settings>\n  <Actions Context=\"Author\">\n    <Exec>\n      <Command>");
    s.append(binary);
    s.append("</Command>\n      <WorkingDirectory>");
    s.append(working_dir);
    s.append("</WorkingDirectory>\n    </Exec>\n  </Actions>\n</Task>");
    s
}

/// The task's principal is the given user, running in that user's
/// interactive session (`InteractiveToken`, where USB notifications are
/// delivered reliably) with least privilege, for every user, binary and
/// working directory.
pub proof fn lemma_task_runs_in_the_users_session(
    user: Seq<char>,
    binary: Seq<char>,
    working_dir: Seq<char>,
)
    ensures
        ({
            let xml = task_xml_chars(user, binary, working_dir);
            let principal = "<Principal id=\"Author\">\n      <UserId>"@ + user + "</UserId>\n      <LogonType>InteractiveToken</LogonType>\n      <RunLevel>LeastPrivilege</RunLevel>\n    </Principal>"@;
            exists|i: int|
                0 <= i && i + principal.len() <= xml.len() && #[trigger] xml.subrange(
                    i,
                    i + principal.len(),
                ) == principal
        }),
{
    let xml = task_xml_chars(user, binary, working_dir);
    let principal = "<Principal id=\"Author\">\n      <UserId>"@ + user + "</UserId>\n      <LogonType>InteractiveToken</LogonType>\n      <RunLevel>LeastPrivilege</RunLevel>\n    </Principal>"@;
    let head = "<Task xmlns=\"http://schemas.microsoft.com/windows/2004/02/mit/task\">\n  <RegistrationInfo>\n    <Description>bad_kvm_switch - automatic DDC/CI monitor switching</Description>\n  </RegistrationInfo>\n  <Triggers>\n    <LogonTrigger>\n      <Enabled>true</Enabled>\n      <UserId>"@ + user + "</UserId>\n    </LogonTrigger>\n    <TimeTrigger>\n      <Enabled>true</Enabled>\n      <StartBoundary>2020-01-01T00:00:00</StartBoundary>\n      <Repetition>\n        <Interval>PT1M</Interval>\n        <StopAtDurationEnd>false</StopAtDurationEnd>\n      </Repetition>\n    </TimeTrigger>\n  </Triggers>\n  <Principals>\n    "@;
    let tail = "\n  </Principals>\n  <Settings>\n    <MultipleInstancesPolicy>IgnoreNew</MultipleInstancesPolicy>\n    <DisallowStartIfOnBatteries>false</DisallowStartIfOnBatteries>\n    <StopIfGoingOnBatteries>false</StopIfGoingOnBatteries>\n    <StartWhenAvailable>true</StartWhenAvailable>\n    <RunOnlyIfIdle>false</RunOnlyIfIdle>\n    <IdleSettings>\n      <StopOnIdleEnd>false</StopOnIdleEnd>\n      <RestartOnIdle>false</RestartOnIdle>\n    </IdleSettings>\n    <AllowStartOnDemand>true</AllowStartOnDemand>\n    <Enabled>true</Enabled>\n    <ExecutionTimeLimit>PT0S</ExecutionTimeLimit>\n  </Settings>\n  <Actions Context=\"Author\">\n    <Exec>\n      <Command>"@ + binary + "</Command>\n      <WorkingDirectory>"@ + working_dir + "</WorkingDirectory>\n    </Exec>\n  </Actions>\n</Task>"@;
    assert(xml =~= head + principal + tail);
    assert(xml.subrange(head.len() as int, (head.len() + principal.len()) as int) =~= principal);
}

/// Stops every process of the installed binary but `own_pid`.
pub open spec fn stop_installed_instance_chars(own_pid: nat, installed: Seq<char>) -> Seq<char> {
    "Get-Process -Name bad_kvm_switch -ErrorAction SilentlyContinue | Where-Object { $_.Id -ne "@ + decimal(own_pid) + " -and $_.Path -eq '"@ + installed + "' } | Stop-Process -Force"@
}

/// The PowerShell script that stops a running instance of the installed
/// binary (matched by path, excluding this process).
pub fn stop_installed_instance_script(own_pid: u32, installed: &str) -> (s: String)
    ensures
        s@ == stop_installed_instance_chars(own_pid as nat, installed@),
{
    let mut s = String::from_str("Get-Process -Name bad_kvm_switch -ErrorAction SilentlyContinue | Where-Object { $_.Id -ne ");
    push_decimal(&mut s, own_pid as u64);
    s.append(" -and $_.Path -eq '");
    s.append(installed);
    s.append("' } | Stop-Process -Force");
    s
}

/// Prints `True` when a process of the installed binary other than
/// `own_pid` runs, else `False`.
pub open spec fn running_instance_chars(own_pid: nat, installed: Seq<char>) -> Seq<char> {
    "$p = Get-Process -Name bad_kvm_switch -ErrorAction SilentlyContinue | Where-Object { $_.Id -ne "@ + decimal(own_pid) + " -and $_.Path -eq '"@ + installed + "' }; if ($p) { 'True' } else { 'False' }"@
}

/// The PowerShell script that reports whether the installed binary runs,
/// excluding this process (which is itself a `bad_kvm_switch` process).
pub fn running_instance_script(own_pid: u32, installed: &str) -> (s: String)
    ensures
        s@ == running_instance_chars(own_pid as nat, installed@),
{
    let mut s = String::from_str("$p = Get-Process -Name bad_kvm_switch -ErrorAction SilentlyContinue | Where-Object { $_.Id -ne ");
    push_decimal(&mut s, own_pid as u64);
    s.append(" -and $_.Path -eq '");
    s.append(installed);
    s.append("' }; if ($p) { 'True' } else { 'False' }");
    s
}

/// Registers the task from the XML file at `xml_path`, replacing any
/// earlier definition.
pub open spec fn register_task_chars(xml_path: Seq<char>) -> Seq<char> {
    "Register-ScheduledTask -TaskName 'bad_kvm_switch' -Xml (Get-Content -Raw -Path '"@ + xml_path + "') -Force | Out-Null"@
}

/// The PowerShell script that registers the task from an XML file.
pub fn register_task_script(xml_path: &str) -> (s: String)
    ensures
        s@ == register_task_chars(xml_path@),
{
    let mut s = String::from_str("Register-ScheduledTask -TaskName 'bad_kvm_switch' -Xml (Get-Content -Raw -Path '");
    s.append(xml_path);
    s.append("') -Force | Out-Null");
    s
}

/// Prints `True` when the task is registered, else `False`.
pub open spec fn task_exists_chars() -> Seq<char> {
    "if (Get-ScheduledTask -TaskName 'bad_kvm_switch' -ErrorAction SilentlyContinue) { 'True' } else { 'False' }"@
}

/// The PowerShell script that reports whether the task is registered.
pub fn task_exists_script() -> (s: String)
    ensures
        s@ == task_exists_chars(),
{
    String::from_str("if (Get-ScheduledTask -TaskName 'bad_kvm_switch' -ErrorAction SilentlyContinue) { 'True' } else { 'False' }")
}

/// Removes the task without asking.
pub open spec fn unregister_task_chars() -> Seq<char> {
    "Unregister-ScheduledTask -TaskName 'bad_kvm_switch' -Confirm:$false"@
}

/// The PowerShell script that removes the task.
pub fn unregister_task_script() -> (s: String)
    ensures
        s@ == unregister_task_chars(),
{
    String::from_str("Unregister-ScheduledTask -TaskName 'bad_kvm_switch' -Confirm:$false")
}

/// Stops the task, quietly if it is not registered or not running.
pub open spec fn stop_task_chars() -> Seq<char> {
    "Stop-ScheduledTask -TaskName 'bad_kvm_switch' -ErrorAction SilentlyContinue"@
}

/// The PowerShell script that stops the task.
pub fn stop_task_script() -> (s: String)
    ensures
        s@ == stop_task_chars(),
{
    String::from_str("Stop-ScheduledTask -TaskName 'bad_kvm_switch' -ErrorAction SilentlyContinue")
}

/// Starts the task (an instance the task did not launch is not covered by
/// `IgnoreNew`).
pub open spec fn start_task_chars() -> Seq<char> {
    "Start-ScheduledTask -TaskName 'bad_kvm_switch'"@
}

/// The PowerShell script that starts the task.
pub fn start_task_script() -> (s: String)
    ensures
        s@ == start_task_chars(),
{
    String::from_str("Start-ScheduledTask -TaskName 'bad_kvm_switch'")
}

/// Whether a yes/no script's trimmed output says yes.
pub fn output_says_true(trimmed: &str) -> (b: bool)
    ensures
        b == (trimmed@ == "True"@),
{
    proof {
        reveal_strlit("True");
    }
    if trimmed.unicode_len() != 4 {
        return false;
    }
    let r = trimmed.get_char(0) == 'T' && trimmed.get_char(1) == 'r' && trimmed.get_char(2) == 'u'
        && trimmed.get_char(3) == 'e';
    if r {
        assert(trimmed@ =~= "True"@);
    }
    r
}

/// Whether per-user service management exists on `platform`.
pub open spec fn service_supported(platform: Platform) -> bool {
    platform == Platform::Linux || platform == Platform::Windows
}

/// Refuses `install` where no per-user service mechanism is implemented;
/// on Linux and Windows the platform's install proceeds.
pub fn install(platform: Platform) -> (r: Result<(), String>)
    ensures
        r is Ok <==> service_supported(platform),
        r matches Err(m) ==> m@ == "service install is only implemented for Linux and Windows so far"@,
{
    if platform == Platform::Linux || platform == Platform::Windows {
        Ok(())
    } else {
        Err(String::from_str("service install is only implemented for Linux and Windows so far"))
    }
}

/// Refuses `uninstall` where no per-user service mechanism is implemented;
/// on Linux and Windows the platform's uninstall proceeds.
pub fn uninstall(platform: Platform) -> (r: Result<(), String>)
    ensures
        r is Ok <==> service_supported(platform),
        r matches Err(m) ==> m@ == "service uninstall is only implemented for Linux and Windows so far"@,
{
    if platform == Platform::Linux || platform == Platform::Windows {
        Ok(())
    } else {
        Err(String::from_str("service uninstall is only implemented for Linux and Windows so far"))
    }
}

/// Refuses `status` where no per-user service mechanism is implemented;
/// on Linux and Windows the platform's status report proceeds.
pub fn status(platform: Platform) -> (r: Result<(), String>)
    ensures
        r is Ok <==> service_supported(platform),
        r matches Err(m) ==> m@ == "service status is only implemented for Linux and Windows so far"@,
{
    if platform == Platform::Linux || platform == Platform::Windows {
        Ok(())
    } else {
        Err(String::from_str("service status is only implemented for Linux and Windows so far"))
    }
}

} // verus!
