use redundinator::mysql::mysqldump_cnf;
use redundinator::resources::{fieldset, html_construct, ActionRequest};
use redundinator::rsync::{exclude_str, storage_dir_name};
use redundinator::settings::app_settings::Mysql;

#[test]
fn html_construct_builds_the_page() {
    let page = html_construct("Title", "<style/>", "<p>hi</p>");
    let expected = "<!DOCTYPE html>
<html>
 <head>
  <meta charset='utf-8'/>
  <meta http-equiv='X-UA-Compatible' content='IE=edge'/>
  <meta name='viewport' content='height=device-height, width=device-width, initial-scale=1'/>
  <style/>
  <title>Title</title>
 </head>
 <body>
 <p>hi</p>
 </body>
</html>";
    assert_eq!(page, expected);
}

#[test]
fn fieldset_wraps_the_content() {
    assert_eq!(
        fieldset("ls", "a\nb", true),
        "<fieldset><legend>ls</legend><pre>a\nb</pre></fieldset>"
    );
    assert_eq!(fieldset("t", "c", false), "<fieldset><legend>t</legend>c</fieldset>");
}

#[test]
fn action_request_switches_one_action_on() {
    let request =
        ActionRequest { action: String::from("export"), active_source: String::from("client1") };
    let action = request.to_action();
    assert!(action.export);
    assert!(!action.sync && !action.unexport && !action.mysql_dump);
    assert!(!action.upload_dropbox && !action.upload_gdrive && !action.auth_dropbox);
    assert_eq!(action.source, "client1");
    let unknown =
        ActionRequest { action: String::from("format_disk"), active_source: String::new() };
    let action = unknown.to_action();
    assert!(!action.export && !action.sync && !action.unexport && !action.mysql_dump);
    assert!(!action.upload_dropbox && !action.upload_gdrive);
    assert_eq!(action.source, "");
}

#[test]
fn action_request_knows_each_action() {
    for name in ["sync", "mysql_dump", "upload_dropbox", "upload_gdrive", "export", "unexport"] {
        let request = ActionRequest { action: String::from(name), active_source: String::new() };
        let a = request.to_action();
        assert_eq!(a.sync, name == "sync");
        assert_eq!(a.mysql_dump, name == "mysql_dump");
        assert_eq!(a.upload_dropbox, name == "upload_dropbox");
        assert_eq!(a.upload_gdrive, name == "upload_gdrive");
        assert_eq!(a.export, name == "export");
        assert_eq!(a.unexport, name == "unexport");
    }
}

#[test]
fn mysqldump_cnf_holds_the_credentials() {
    let mysql =
        Mysql { mysqldump_username: String::from("root"), mysqldump_password: String::from("pw") };
    assert_eq!(mysqldump_cnf(&mysql), "[mysqldump]\nuser=root\npassword=pw");
}

#[test]
fn exclude_str_quotes_each_path() {
    assert_eq!(
        exclude_str(vec![String::from("$Recycle.Bin"), String::from("MSOCache")]),
        "--exclude '$Recycle.Bin' --exclude 'MSOCache'"
    );
    assert_eq!(exclude_str(vec![String::from("one")]), "--exclude 'one'");
    assert_eq!(exclude_str(vec![]), "--exclude ''");
}

#[test]
fn storage_dir_name_replaces_separators() {
    assert_eq!(storage_dir_name("/home/"), "_home_");
    assert_eq!(storage_dir_name("C:\\My Files"), "C__My_Files");
    assert_eq!(storage_dir_name("plain"), "plain");
    assert_eq!(storage_dir_name(""), "");
}
