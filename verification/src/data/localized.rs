use vstd::prelude::*;

verus! {

/// The words of the user interface in one language.
#[derive(Clone, Debug)]
pub struct Locale {
    pub save: &'static str,
    pub disconnect: &'static str,
    pub reconnect: &'static str,
    pub connect: &'static str,
    pub close: &'static str,
    pub subscribe: &'static str,
    pub publish: &'static str,
    pub copy_github: &'static str,
    pub open: &'static str,
}

impl Locale {
    /// The words in simplified Chinese.
    pub fn default_zh_cn() -> (r: Self)
        ensures
            r.save@ == "保存"@,
            r.disconnect@ == "断开"@,
            r.reconnect@ == "重连"@,
            r.connect@ == "连接"@,
            r.close@ == "关闭"@,
            r.subscribe@ == "订阅"@,
            r.publish@ == "发布"@,
            r.copy_github@ == "复制github"@,
            r.open@ == "打开"@,
    {
        Self {
            save: "保存",
            disconnect: "断开",
            reconnect: "重连",
            connect: "连接",
            close: "关闭",
            subscribe: "订阅",
            publish: "发布",
            copy_github: "复制github",
            open: "打开",
        }
    }

    /// The words in English.
    pub fn default() -> (r: Self)
        ensures
            r.save@ == "save"@,
            r.disconnect@ == "disconnect"@,
            r.reconnect@ == "reconnect"@,
            r.connect@ == "connect"@,
            r.close@ == "close"@,
            r.subscribe@ == "subscribe"@,
            r.publish@ == "publish"@,
            r.copy_github@ == "copy github addr"@,
            r.open@ == "open"@,
    {
        Self {
            save: "save",
            disconnect: "disconnect",
            reconnect: "reconnect",
            connect: "connect",
            close: "close",
            subscribe: "subscribe",
            publish: "publish",
            copy_github: "copy github addr",
            open: "open",
        }
    }
}

} // verus!
