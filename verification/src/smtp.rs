//! Mail: whether it can be sent, and what a verification mail says.
//! Sending itself is the caller's part.

use crate::config::SmtpConfig;
use vstd::prelude::*;

verus! {

/// Knows whether mail can be sent and what it says.
pub struct SmtpService {
    config: SmtpConfig,
}

/// What stands before the code in a verification mail.
pub const VERIFICATION_MAIL_HEAD: &'static str = "\n\
<!DOCTYPE html>\n\
<html lang=\"zh-CN\">\n\
<head>\n\
\x20   <meta charset=\"UTF-8\">\n\
\x20   <meta name=\"viewport\" content=\"width=device-width, initial-scale=1.0\">\n\
\x20   <title>邮箱验证码</title>\n\
\x20   <style>\n\
\x20       body {\n\
\x20           font-family: -apple-system, BlinkMacSystemFont, 'Segoe UI', Roboto, 'Helvetica Neue', Arial, sans-serif;\n\
\x20           line-height: 1.6;\n\
\x20           margin: 0;\n\
\x20           padding: 20px;\n\
\x20           background-color: #f5f5f5;\n\
\x20       }\n\
\x20       .container {\n\
\x20           max-width: 600px;\n\
\x20           margin: 0 auto;\n\
\x20           background-color: white;\n\
\x20           padding: 40px;\n\
\x20           border-radius: 12px;\n\
\x20           box-shadow: 0 4px 12px rgba(0, 0, 0, 0.1);\n\
\x20       }\n\
\x20       .header {\n\
\x20           text-align: center;\n\
\x20           margin-bottom: 30px;\n\
\x20       }\n\
\x20       .logo {\n\
\x20           font-size: 24px;\n\
\x20           font-weight: bold;\n\
\x20           color: #FF8C47;\n\
\x20           margin-bottom: 10px;\n\
\x20       }\n\
\x20       .title {\n\
\x20           font-size: 20px;\n\
\x20           color: #2F2F2F;\n\
\x20           margin-bottom: 20px;\n\
\x20       }\n\
\x20       .code-container {\n\
\x20           background-color: #f8f9fa;\n\
\x20           border: 2px dashed #FF8C47;\n\
\x20           border-radius: 8px;\n\
\x20           padding: 20px;\n\
\x20           text-align: center;\n\
\x20           margin: 30px 0;\n\
\x20       }\n\
\x20       .verification-code {\n\
\x20           font-size: 32px;\n\
\x20           font-weight: bold;\n\
\x20           color: #FF8C47;\n\
\x20           letter-spacing: 4px;\n\
\x20           font-family: 'Courier New', monospace;\n\
\x20       }\n\
\x20       .description {\n\
\x20           color: #666;\n\
\x20           margin-bottom: 20px;\n\
\x20       }\n\
\x20       .warning {\n\
\x20           background-color: #fff3cd;\n\
\x20           border: 1px solid #ffeaa7;\n\
\x20           border-radius: 6px;\n\
\x20           padding: 15px;\n\
\x20           margin: 20px 0;\n\
\x20           color: #856404;\n\
\x20       }\n\
\x20       .footer {\n\
\x20           text-align: center;\n\
\x20           margin-top: 30px;\n\
\x20           padding-top: 20px;\n\
\x20           border-top: 1px solid #eee;\n\
\x20           color: #999;\n\
\x20           font-size: 14px;\n\
\x20       }\n\
\x20       .button {\n\
\x20           display: inline-block;\n\
\x20           background-color: #FF8C47;\n\
\x20           color: white;\n\
\x20           padding: 12px 24px;\n\
\x20           text-decoration: none;\n\
\x20           border-radius: 6px;\n\
\x20           margin: 20px 0;\n\
\x20       }\n\
\x20   </style>\n\
</head>\n\
<body>\n\
\x20   <div class=\"container\">\n\
\x20       <div class=\"header\">\n\
\x20           <div class=\"logo\">🔧 GeekTools</div>\n\
\x20           <div class=\"title\">插件市场邮箱验证</div>\n\
\x20       </div>\n\
\x20       \n\
\x20       <div class=\"description\">\n\
\x20           您好！欢迎使用 GeekTools 插件市场。为了验证您的邮箱地址，请使用以下验证码：\n\
\x20       </div>\n\
\x20       \n\
\x20       <div class=\"code-container\">\n\
\x20           <div class=\"verification-code\">";

/// What stands after the code in a verification mail.
pub const VERIFICATION_MAIL_TAIL: &'static str = "</div>\n\
\x20       </div>\n\
\x20       \n\
\x20       <div class=\"description\">\n\
\x20           请在 10 分钟内使用此验证码完成邮箱验证。如果您没有请求此验证码，请忽略此邮件。\n\
\x20       </div>\n\
\x20       \n\
\x20       <div class=\"warning\">\n\
\x20           <strong>安全提示：</strong>\n\
\x20           <ul>\n\
\x20               <li>验证码仅用于本次登录验证，请勿分享给他人</li>\n\
\x20               <li>GeekTools 团队不会通过邮件、电话等方式主动询问您的验证码</li>\n\
\x20               <li>如有疑问，请联系我们的技术支持</li>\n\
\x20           </ul>\n\
\x20       </div>\n\
\x20       \n\
\x20       <div class=\"footer\">\n\
\x20           <p>此邮件由 GeekTools 插件市场自动发送，请勿回复</p>\n\
\x20           <p>© 2025 GeekTools Plugin Marketplace. All rights reserved.</p>\n\
\x20       </div>\n\
\x20   </div>\n\
</body>\n\
</html>\n\
\x20           ";

/// The subject of a verification mail.
pub const VERIFICATION_MAIL_SUBJECT: &'static str = "GeekTools \u{63d2}\u{4ef6}\u{5e02}\u{573a} - \u{90ae}\u{7bb1}\u{9a8c}\u{8bc1}\u{7801}";

/// Whether mail can be sent under `config`: it is switched on and both
/// credentials are set.
pub open spec fn can_send(config: SmtpConfig) -> bool {
    config.enabled && config.username@.len() > 0 && config.password@.len() > 0
}

impl SmtpService {
    pub closed spec fn config(&self) -> SmtpConfig {
        self.config
    }

    pub fn new(config: SmtpConfig) -> (service: SmtpService)
        ensures
            service.config() == config,
    {
        SmtpService { config }
    }

    /// Whether mail can be sent.
    pub fn is_enabled(&self) -> (enabled: bool)
        ensures
            enabled == can_send(self.config()),
    {
        self.config.enabled && !self.config.username.as_str().is_empty()
            && !self.config.password.as_str().is_empty()
    }

    /// Puts `new_config` in place of the configuration.
    pub fn update_config(&mut self, new_config: SmtpConfig)
        ensures
            final(self).config() == new_config,
    {
        self.config = new_config;
    }

    /// The body of the mail that brings `code`: the code between the two
    /// fixed parts of the page.
    pub fn create_verification_email_body(&self, code: &str) -> (body: String)
        ensures
            body@ == VERIFICATION_MAIL_HEAD@ + code@ + VERIFICATION_MAIL_TAIL@,
    {
        VERIFICATION_MAIL_HEAD.to_string().concat(code).concat(VERIFICATION_MAIL_TAIL)
    }

    /// Why a test mail cannot be sent, if it cannot: mail is switched off,
    /// or the credentials are not set.
    pub fn send_refusal(&self) -> (refusal: Option<&'static str>)
        ensures
            refusal is None <==> can_send(self.config()),
            refusal matches Some(text) ==> text@ == if !self.config().enabled {
                "SMTP is not enabled"@
            } else {
                "SMTP credentials are not configured"@
            },
    {
        if !self.config.enabled {
            Some("SMTP is not enabled")
        } else if self.config.username.as_str().is_empty()
            || self.config.password.as_str().is_empty() {
            Some("SMTP credentials are not configured")
        } else {
            None
        }
    }
}

} // verus!
