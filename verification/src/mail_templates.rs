//! Email templates: the team invitation and password reset messages, and the
//! standard invitation bodies used by the email services.

use vstd::prelude::*;

use crate::ids::{lemma_uuid_text_form, spec_uuid_text, uuid_text};
use crate::mail::{invitation_metadata, EmailError, EmailMessage};
use crate::text::{decimal, u64_to_decimal};

verus! {

pub open spec fn invitation_text_head_spec(inviter_name: Seq<char>, team_name: Seq<char>, role: Seq<char>) -> Seq<char> {
    "Hi there!\n\n"@
        + inviter_name
        + " has invited you to join the team '"@
        + team_name
        + "' as a "@
        + role
        + ".\n\n"@
}

fn invitation_text_head(inviter_name: &str, team_name: &str, role: &str) -> (r: String)
    ensures
        r@ == invitation_text_head_spec(inviter_name@, team_name@, role@),
{
    let mut s = String::from_str("Hi there!\n\n");
    s.append(inviter_name);
    s.append(" has invited you to join the team '");
    s.append(team_name);
    s.append("' as a ");
    s.append(role);
    s.append(".\n\n");
    s
}

pub open spec fn invitation_text_custom_spec(inviter_name: Seq<char>, custom_msg: Seq<char>) -> Seq<char> {
    "Message from "@
        + inviter_name
        + ":\n\""@
        + custom_msg
        + "\"\n\n"@
}

fn invitation_text_custom(inviter_name: &str, custom_msg: &str) -> (r: String)
    ensures
        r@ == invitation_text_custom_spec(inviter_name@, custom_msg@),
{
    let mut s = String::from_str("Message from ");
    s.append(inviter_name);
    s.append(":\n\"");
    s.append(custom_msg);
    s.append("\"\n\n");
    s
}

pub open spec fn invitation_text_tail_spec(invitation_url: Seq<char>, expires_in_days: Seq<char>) -> Seq<char> {
    "Click the link below to accept the invitation:\n"@
        + invitation_url
        + "\n\nThis invitation will expire in "@
        + expires_in_days
        + " days.\n\nIf you don't have a Framecast account, you'll be prompted to create one.\n\nThanks,\nThe Framecast Team"@
}

fn invitation_text_tail(invitation_url: &str, expires_in_days: &str) -> (r: String)
    ensures
        r@ == invitation_text_tail_spec(invitation_url@, expires_in_days@),
{
    let mut s = String::from_str("Click the link below to accept the invitation:\n");
    s.append(invitation_url);
    s.append("\n\nThis invitation will expire in ");
    s.append(expires_in_days);
    s.append(" days.\n\nIf you don't have a Framecast account, you'll be prompted to create one.\n\nThanks,\nThe Framecast Team");
    s
}

pub open spec fn invitation_html_head_spec(team_name: Seq<char>, inviter_name: Seq<char>, role: Seq<char>) -> Seq<char> {
    "\n            <html>\n            <head>\n                <meta charset=\"UTF-8\">\n                <meta name=\"viewport\" content=\"width=device-width, initial-scale=1.0\">\n                <title>Team Invitation - "@
        + team_name
        + "</title>\n            </head>\n            <body style=\"font-family: Arial, sans-serif; line-height: 1.6; color: #333; margin: 0; padding: 0; background-color: #f4f4f4;\">\n                <div style=\"max-width: 600px; margin: 0 auto; background-color: #ffffff; padding: 0;\">\n                    <!-- Header -->\n                    <div style=\"background-color: #007cba; padding: 20px; text-align: center;\">\n                        <h1 style=\"color: #ffffff; margin: 0; font-size: 24px;\">Framecast</h1>\n                    </div>\n\n                    <!-- Content -->\n                    <div style=\"padding: 30px;\">\n                        <h2 style=\"color: #007cba; margin-top: 0;\">You're invited to join "@
        + team_name
        + "!</h2>\n\n                        <p style=\"margin-bottom: 20px;\">Hi there!</p>\n\n                        <p style=\"margin-bottom: 20px;\">\n                            <strong>"@
        + inviter_name
        + "</strong> has invited you to join the team\n                            '<strong>"@
        + team_name
        + "</strong>' as a <strong>"@
        + role
        + "</strong>.\n                        </p>\n            "@
}

fn invitation_html_head(team_name: &str, inviter_name: &str, role: &str) -> (r: String)
    ensures
        r@ == invitation_html_head_spec(team_name@, inviter_name@, role@),
{
    let mut s = String::from_str("\n            <html>\n            <head>\n                <meta charset=\"UTF-8\">\n                <meta name=\"viewport\" content=\"width=device-width, initial-scale=1.0\">\n                <title>Team Invitation - ");
    s.append(team_name);
    s.append("</title>\n            </head>\n            <body style=\"font-family: Arial, sans-serif; line-height: 1.6; color: #333; margin: 0; padding: 0; background-color: #f4f4f4;\">\n                <div style=\"max-width: 600px; margin: 0 auto; background-color: #ffffff; padding: 0;\">\n                    <!-- Header -->\n                    <div style=\"background-color: #007cba; padding: 20px; text-align: center;\">\n                        <h1 style=\"color: #ffffff; margin: 0; font-size: 24px;\">Framecast</h1>\n                    </div>\n\n                    <!-- Content -->\n                    <div style=\"padding: 30px;\">\n                        <h2 style=\"color: #007cba; margin-top: 0;\">You're invited to join ");
    s.append(team_name);
    s.append("!</h2>\n\n                        <p style=\"margin-bottom: 20px;\">Hi there!</p>\n\n                        <p style=\"margin-bottom: 20px;\">\n                            <strong>");
    s.append(inviter_name);
    s.append("</strong> has invited you to join the team\n                            '<strong>");
    s.append(team_name);
    s.append("</strong>' as a <strong>");
    s.append(role);
    s.append("</strong>.\n                        </p>\n            ");
    s
}

pub open spec fn invitation_html_custom_spec(inviter_name: Seq<char>, custom_msg: Seq<char>) -> Seq<char> {
    "\n                        <div style=\"background-color: #f8f9fa; border-left: 4px solid #007cba; padding: 15px; margin: 20px 0;\">\n                            <p style=\"margin: 0; font-style: italic; color: #666;\">\n                                <strong>Message from "@
        + inviter_name
        + ":</strong><br>\n                                \""@
        + custom_msg
        + "\"\n                            </p>\n                        </div>\n                "@
}

fn invitation_html_custom(inviter_name: &str, custom_msg: &str) -> (r: String)
    ensures
        r@ == invitation_html_custom_spec(inviter_name@, custom_msg@),
{
    let mut s = String::from_str("\n                        <div style=\"background-color: #f8f9fa; border-left: 4px solid #007cba; padding: 15px; margin: 20px 0;\">\n                            <p style=\"margin: 0; font-style: italic; color: #666;\">\n                                <strong>Message from ");
    s.append(inviter_name);
    s.append(":</strong><br>\n                                \"");
    s.append(custom_msg);
    s.append("\"\n                            </p>\n                        </div>\n                ");
    s
}

pub open spec fn invitation_html_tail_spec(invitation_url: Seq<char>, expires_in_days: Seq<char>, recipient_email: Seq<char>) -> Seq<char> {
    "\n                        <div style=\"text-align: center; margin: 30px 0;\">\n                            <a href=\""@
        + invitation_url
        + "\"\n                               style=\"background-color: #007cba; color: white; padding: 15px 30px; text-decoration: none; border-radius: 5px; display: inline-block; font-weight: bold; font-size: 16px;\">\n                                Accept Invitation\n                            </a>\n                        </div>\n\n                        <p style=\"margin-bottom: 10px;\">Or copy and paste this link in your browser:</p>\n                        <p style=\"background-color: #f5f5f5; padding: 12px; border-radius: 4px; word-break: break-all; font-family: monospace; font-size: 14px;\">\n                            <a href=\""@
        + invitation_url
        + "\" style=\"color: #007cba; text-decoration: none;\">"@
        + invitation_url
        + "</a>\n                        </p>\n\n                        <div style=\"background-color: #fff3cd; border: 1px solid #ffeaa7; border-radius: 4px; padding: 15px; margin: 20px 0;\">\n                            <p style=\"margin: 0; color: #856404;\">\n                                ⏰ <strong>This invitation will expire in "@
        + expires_in_days
        + " days.</strong>\n                            </p>\n                        </div>\n\n                        <p style=\"color: #666; font-size: 14px; margin-bottom: 0;\">\n                            If you don't have a Framecast account, you'll be prompted to create one when you accept the invitation.\n                        </p>\n                    </div>\n\n                    <!-- Footer -->\n                    <div style=\"background-color: #f8f9fa; padding: 20px; text-align: center; border-top: 1px solid #dee2e6;\">\n                        <p style=\"margin: 0; color: #666; font-size: 12px;\">\n                            Thanks,<br>\n                            The Framecast Team\n                        </p>\n                        <p style=\"margin: 10px 0 0 0; color: #999; font-size: 11px;\">\n                            This invitation was sent to "@
        + recipient_email
        + "\n                        </p>\n                    </div>\n                </div>\n            </body>\n            </html>\n            "@
}

fn invitation_html_tail(invitation_url: &str, expires_in_days: &str, recipient_email: &str) -> (r: String)
    ensures
        r@ == invitation_html_tail_spec(invitation_url@, expires_in_days@, recipient_email@),
{
    let mut s = String::from_str("\n                        <div style=\"text-align: center; margin: 30px 0;\">\n                            <a href=\"");
    s.append(invitation_url);
    s.append("\"\n                               style=\"background-color: #007cba; color: white; padding: 15px 30px; text-decoration: none; border-radius: 5px; display: inline-block; font-weight: bold; font-size: 16px;\">\n                                Accept Invitation\n                            </a>\n                        </div>\n\n                        <p style=\"margin-bottom: 10px;\">Or copy and paste this link in your browser:</p>\n                        <p style=\"background-color: #f5f5f5; padding: 12px; border-radius: 4px; word-break: break-all; font-family: monospace; font-size: 14px;\">\n                            <a href=\"");
    s.append(invitation_url);
    s.append("\" style=\"color: #007cba; text-decoration: none;\">");
    s.append(invitation_url);
    s.append("</a>\n                        </p>\n\n                        <div style=\"background-color: #fff3cd; border: 1px solid #ffeaa7; border-radius: 4px; padding: 15px; margin: 20px 0;\">\n                            <p style=\"margin: 0; color: #856404;\">\n                                ⏰ <strong>This invitation will expire in ");
    s.append(expires_in_days);
    s.append(" days.</strong>\n                            </p>\n                        </div>\n\n                        <p style=\"color: #666; font-size: 14px; margin-bottom: 0;\">\n                            If you don't have a Framecast account, you'll be prompted to create one when you accept the invitation.\n                        </p>\n                    </div>\n\n                    <!-- Footer -->\n                    <div style=\"background-color: #f8f9fa; padding: 20px; text-align: center; border-top: 1px solid #dee2e6;\">\n                        <p style=\"margin: 0; color: #666; font-size: 12px;\">\n                            Thanks,<br>\n                            The Framecast Team\n                        </p>\n                        <p style=\"margin: 10px 0 0 0; color: #999; font-size: 11px;\">\n                            This invitation was sent to ");
    s.append(recipient_email);
    s.append("\n                        </p>\n                    </div>\n                </div>\n            </body>\n            </html>\n            ");
    s
}

pub open spec fn reset_text_spec(greeting: Seq<char>, reset_url: Seq<char>, expires_in_hours: Seq<char>) -> Seq<char> {
    greeting
        + "\n\nWe received a request to reset your Framecast password.\n\nClick the link below to reset your password:\n"@
        + reset_url
        + "\n\nThis link will expire in "@
        + expires_in_hours
        + " hours.\n\nIf you didn't request a password reset, you can safely ignore this email.\n\nThanks,\nThe Framecast Team"@
}

fn reset_text(greeting: &str, reset_url: &str, expires_in_hours: &str) -> (r: String)
    ensures
        r@ == reset_text_spec(greeting@, reset_url@, expires_in_hours@),
{
    let mut s = String::from_str(greeting);
    s.append("\n\nWe received a request to reset your Framecast password.\n\nClick the link below to reset your password:\n");
    s.append(reset_url);
    s.append("\n\nThis link will expire in ");
    s.append(expires_in_hours);
    s.append(" hours.\n\nIf you didn't request a password reset, you can safely ignore this email.\n\nThanks,\nThe Framecast Team");
    s
}

pub open spec fn reset_html_spec(greeting: Seq<char>, reset_url: Seq<char>, expires_in_hours: Seq<char>) -> Seq<char> {
    "\n            <html>\n            <body style=\"font-family: Arial, sans-serif; line-height: 1.6; color: #333;\">\n                <div style=\"max-width: 600px; margin: 0 auto; padding: 20px;\">\n                    <h2 style=\"color: #007cba;\">Reset your Framecast password</h2>\n\n                    <p>"@
        + greeting
        + "</p>\n\n                    <p>We received a request to reset your Framecast password.</p>\n\n                    <div style=\"text-align: center; margin: 30px 0;\">\n                        <a href=\""@
        + reset_url
        + "\"\n                           style=\"background-color: #007cba; color: white; padding: 12px 24px; text-decoration: none; border-radius: 4px; display: inline-block; font-weight: bold;\">\n                            Reset Password\n                        </a>\n                    </div>\n\n                    <p>Or copy and paste this link in your browser:</p>\n                    <p style=\"background-color: #f5f5f5; padding: 10px; border-radius: 4px; word-break: break-all;\">\n                        <a href=\""@
        + reset_url
        + "\">"@
        + reset_url
        + "</a>\n                    </p>\n\n                    <p style=\"color: #666; font-size: 14px;\">\n                        <em>This link will expire in "@
        + expires_in_hours
        + " hours.</em>\n                    </p>\n\n                    <hr style=\"border: none; border-top: 1px solid #eee; margin: 30px 0;\">\n\n                    <p style=\"color: #666; font-size: 12px;\">\n                        If you didn't request a password reset, you can safely ignore this email.<br>\n                        Thanks, The Framecast Team\n                    </p>\n                </div>\n            </body>\n            </html>\n            "@
}

fn reset_html(greeting: &str, reset_url: &str, expires_in_hours: &str) -> (r: String)
    ensures
        r@ == reset_html_spec(greeting@, reset_url@, expires_in_hours@),
{
    let mut s = String::from_str("\n            <html>\n            <body style=\"font-family: Arial, sans-serif; line-height: 1.6; color: #333;\">\n                <div style=\"max-width: 600px; margin: 0 auto; padding: 20px;\">\n                    <h2 style=\"color: #007cba;\">Reset your Framecast password</h2>\n\n                    <p>");
    s.append(greeting);
    s.append("</p>\n\n                    <p>We received a request to reset your Framecast password.</p>\n\n                    <div style=\"text-align: center; margin: 30px 0;\">\n                        <a href=\"");
    s.append(reset_url);
    s.append("\"\n                           style=\"background-color: #007cba; color: white; padding: 12px 24px; text-decoration: none; border-radius: 4px; display: inline-block; font-weight: bold;\">\n                            Reset Password\n                        </a>\n                    </div>\n\n                    <p>Or copy and paste this link in your browser:</p>\n                    <p style=\"background-color: #f5f5f5; padding: 10px; border-radius: 4px; word-break: break-all;\">\n                        <a href=\"");
    s.append(reset_url);
    s.append("\">");
    s.append(reset_url);
    s.append("</a>\n                    </p>\n\n                    <p style=\"color: #666; font-size: 14px;\">\n                        <em>This link will expire in ");
    s.append(expires_in_hours);
    s.append(" hours.</em>\n                    </p>\n\n                    <hr style=\"border: none; border-top: 1px solid #eee; margin: 30px 0;\">\n\n                    <p style=\"color: #666; font-size: 12px;\">\n                        If you didn't request a password reset, you can safely ignore this email.<br>\n                        Thanks, The Framecast Team\n                    </p>\n                </div>\n            </body>\n            </html>\n            ");
    s
}

pub open spec fn team_invitation_text_spec(inviter_name: Seq<char>, team_name: Seq<char>, role: Seq<char>, invitation_url: Seq<char>) -> Seq<char> {
    "Hi there!\n\n"@
        + inviter_name
        + " has invited you to join the team '"@
        + team_name
        + "' as a "@
        + role
        + ".\n\nClick the link below to accept the invitation:\n"@
        + invitation_url
        + "\n\nThis invitation will expire in 7 days.\n\nIf you don't have a Framecast account, you'll be prompted to create one.\n\nThanks,\nThe Framecast Team"@
}

/// The plain-text body of a team invitation email.
pub fn team_invitation_text(inviter_name: &str, team_name: &str, role: &str, invitation_url: &str) -> (r: String)
    ensures
        r@ == team_invitation_text_spec(inviter_name@, team_name@, role@, invitation_url@),
{
    let mut s = String::from_str("Hi there!\n\n");
    s.append(inviter_name);
    s.append(" has invited you to join the team '");
    s.append(team_name);
    s.append("' as a ");
    s.append(role);
    s.append(".\n\nClick the link below to accept the invitation:\n");
    s.append(invitation_url);
    s.append("\n\nThis invitation will expire in 7 days.\n\nIf you don't have a Framecast account, you'll be prompted to create one.\n\nThanks,\nThe Framecast Team");
    s
}

pub open spec fn team_invitation_html_spec(inviter_name: Seq<char>, team_name: Seq<char>, role: Seq<char>, invitation_url: Seq<char>) -> Seq<char> {
    "\n            <html>\n            <body style=\"font-family: Arial, sans-serif; line-height: 1.6; color: #333;\">\n                <div style=\"max-width: 600px; margin: 0 auto; padding: 20px;\">\n                    <h2 style=\"color: #007cba;\">You're invited to join "@
        + team_name
        + "!</h2>\n\n                    <p>Hi there!</p>\n\n                    <p><strong>"@
        + inviter_name
        + "</strong> has invited you to join the team '<strong>"@
        + team_name
        + "</strong>' as a <strong>"@
        + role
        + "</strong>.</p>\n\n                    <div style=\"text-align: center; margin: 30px 0;\">\n                        <a href=\""@
        + invitation_url
        + "\"\n                           style=\"background-color: #007cba; color: white; padding: 12px 24px; text-decoration: none; border-radius: 4px; display: inline-block; font-weight: bold;\">\n                            Accept Invitation\n                        </a>\n                    </div>\n\n                    <p>Or copy and paste this link in your browser:</p>\n                    <p style=\"background-color: #f5f5f5; padding: 10px; border-radius: 4px; word-break: break-all;\">\n                        <a href=\""@
        + invitation_url
        + "\">"@
        + invitation_url
        + "</a>\n                    </p>\n\n                    <p style=\"color: #666; font-size: 14px;\">\n                        <em>This invitation will expire in 7 days.</em>\n                    </p>\n\n                    <hr style=\"border: none; border-top: 1px solid #eee; margin: 30px 0;\">\n\n                    <p style=\"color: #666; font-size: 12px;\">\n                        If you don't have a Framecast account, you'll be prompted to create one.<br>\n                        Thanks, The Framecast Team\n                    </p>\n                </div>\n            </body>\n            </html>\n            "@
}

/// The HTML body of a team invitation email.
pub fn team_invitation_html(inviter_name: &str, team_name: &str, role: &str, invitation_url: &str) -> (r: String)
    ensures
        r@ == team_invitation_html_spec(inviter_name@, team_name@, role@, invitation_url@),
{
    let mut s = String::from_str("\n            <html>\n            <body style=\"font-family: Arial, sans-serif; line-height: 1.6; color: #333;\">\n                <div style=\"max-width: 600px; margin: 0 auto; padding: 20px;\">\n                    <h2 style=\"color: #007cba;\">You're invited to join ");
    s.append(team_name);
    s.append("!</h2>\n\n                    <p>Hi there!</p>\n\n                    <p><strong>");
    s.append(inviter_name);
    s.append("</strong> has invited you to join the team '<strong>");
    s.append(team_name);
    s.append("</strong>' as a <strong>");
    s.append(role);
    s.append("</strong>.</p>\n\n                    <div style=\"text-align: center; margin: 30px 0;\">\n                        <a href=\"");
    s.append(invitation_url);
    s.append("\"\n                           style=\"background-color: #007cba; color: white; padding: 12px 24px; text-decoration: none; border-radius: 4px; display: inline-block; font-weight: bold;\">\n                            Accept Invitation\n                        </a>\n                    </div>\n\n                    <p>Or copy and paste this link in your browser:</p>\n                    <p style=\"background-color: #f5f5f5; padding: 10px; border-radius: 4px; word-break: break-all;\">\n                        <a href=\"");
    s.append(invitation_url);
    s.append("\">");
    s.append(invitation_url);
    s.append("</a>\n                    </p>\n\n                    <p style=\"color: #666; font-size: 14px;\">\n                        <em>This invitation will expire in 7 days.</em>\n                    </p>\n\n                    <hr style=\"border: none; border-top: 1px solid #eee; margin: 30px 0;\">\n\n                    <p style=\"color: #666; font-size: 12px;\">\n                        If you don't have a Framecast account, you'll be prompted to create one.<br>\n                        Thanks, The Framecast Team\n                    </p>\n                </div>\n            </body>\n            </html>\n            ");
    s
}

/// The plain-text body of a templated invitation.
pub open spec fn invitation_template_text(
    inviter_name: Seq<char>,
    team_name: Seq<char>,
    role: Seq<char>,
    custom_message: Option<Seq<char>>,
    url: Seq<char>,
    days: u32,
) -> Seq<char> {
    invitation_text_head_spec(inviter_name, team_name, role) + match custom_message {
        Some(c) => invitation_text_custom_spec(inviter_name, c),
        None => Seq::empty(),
    } + invitation_text_tail_spec(url, decimal(days as nat))
}

/// The HTML body of a templated invitation.
pub open spec fn invitation_template_html(
    inviter_name: Seq<char>,
    team_name: Seq<char>,
    role: Seq<char>,
    custom_message: Option<Seq<char>>,
    url: Seq<char>,
    days: u32,
    recipient_email: Seq<char>,
) -> Seq<char> {
    invitation_html_head_spec(team_name, inviter_name, role) + match custom_message {
        Some(c) => invitation_html_custom_spec(inviter_name, c),
        None => Seq::empty(),
    } + invitation_html_tail_spec(url, decimal(days as nat), recipient_email)
}

/// The public link that accepts an invitation.
pub open spec fn public_invitation_url(team_id: u128, invitation_id: u128) -> Seq<char> {
    "https://framecast.app/teams/"@ + spec_uuid_text(team_id) + "/invitations/"@ + spec_uuid_text(invitation_id)
        + "/accept"@
}

fn copy_text(s: &String) -> (r: String)
    ensures
        r@ == s@,
{
    String::from_str(s.as_str())
}

/// Builder of team invitation emails.
pub struct TeamInvitationTemplate {
    team_name: String,
    team_id: u128,
    invitation_id: u128,
    inviter_name: String,
    role: String,
    custom_message: Option<String>,
    expires_in_days: u32,
}

pub open spec fn opt_view(o: Option<String>) -> Option<Seq<char>> {
    match o {
        Some(s) => Some(s@),
        None => None,
    }
}

impl TeamInvitationTemplate {
    pub closed spec fn spec_team_name(&self) -> Seq<char> {
        self.team_name@
    }

    pub closed spec fn spec_team_id(&self) -> u128 {
        self.team_id
    }

    pub closed spec fn spec_invitation_id(&self) -> u128 {
        self.invitation_id
    }

    pub closed spec fn spec_inviter_name(&self) -> Seq<char> {
        self.inviter_name@
    }

    pub closed spec fn spec_role(&self) -> Seq<char> {
        self.role@
    }

    pub closed spec fn spec_custom_message(&self) -> Option<Seq<char>> {
        opt_view(self.custom_message)
    }

    pub closed spec fn spec_expires_in_days(&self) -> u32 {
        self.expires_in_days
    }

    /// A template with no custom message, expiring in 7 days.
    pub fn new(team_name: String, team_id: u128, invitation_id: u128, inviter_name: String, role: String) -> (r: Self)
        ensures
            r.spec_team_name() == team_name@,
            r.spec_team_id() == team_id,
            r.spec_invitation_id() == invitation_id,
            r.spec_inviter_name() == inviter_name@,
            r.spec_role() == role@,
            r.spec_custom_message() is None,
            r.spec_expires_in_days() == 7,
    {
        TeamInvitationTemplate {
            team_name,
            team_id,
            invitation_id,
            inviter_name,
            role,
            custom_message: None,
            expires_in_days: 7,
        }
    }

    /// The template with a message from the inviter.
    pub fn with_custom_message(self, message: String) -> (r: Self)
        ensures
            r.spec_custom_message() == Some(message@),
            r.spec_team_name() == self.spec_team_name() && r.spec_team_id() == self.spec_team_id(),
            r.spec_invitation_id() == self.spec_invitation_id() && r.spec_inviter_name() == self.spec_inviter_name(),
            r.spec_role() == self.spec_role() && r.spec_expires_in_days() == self.spec_expires_in_days(),
    {
        TeamInvitationTemplate { custom_message: Some(message), ..self }
    }

    /// The template with another expiry, in days.
    pub fn with_expiration_days(self, days: u32) -> (r: Self)
        ensures
            r.spec_expires_in_days() == days,
            r.spec_team_name() == self.spec_team_name() && r.spec_team_id() == self.spec_team_id(),
            r.spec_invitation_id() == self.spec_invitation_id() && r.spec_inviter_name() == self.spec_inviter_name(),
            r.spec_role() == self.spec_role() && r.spec_custom_message() == self.spec_custom_message(),
    {
        TeamInvitationTemplate { expires_in_days: days, ..self }
    }

    /// The invitation email to `recipient_email` from `from_email`.
    pub fn build(&self, recipient_email: String, from_email: String) -> (r: Result<EmailMessage, EmailError>)
        ensures
            r matches Ok(m) && {
                let url = public_invitation_url(self.spec_team_id(), self.spec_invitation_id());
                &&& m.to@ == recipient_email@
                &&& m.from@ == from_email@
                &&& m.reply_to is None
                &&& m.subject@ == "Invitation to join team: "@ + self.spec_team_name()
                &&& m.body_text@ == invitation_template_text(
                    self.spec_inviter_name(),
                    self.spec_team_name(),
                    self.spec_role(),
                    self.spec_custom_message(),
                    url,
                    self.spec_expires_in_days(),
                )
                &&& m.body_html matches Some(h) && h@ == invitation_template_html(
                    self.spec_inviter_name(),
                    self.spec_team_name(),
                    self.spec_role(),
                    self.spec_custom_message(),
                    url,
                    self.spec_expires_in_days(),
                    recipient_email@,
                )
                &&& m.spec_metadata() == invitation_metadata(self.spec_team_id(), self.spec_invitation_id(), self.spec_role()).insert(
                    "template_version"@,
                    "1.0"@,
                )
            },
    {
        let mut url = String::from_str("https://framecast.app/teams/");
        url.append(uuid_text(self.team_id).as_str());
        url.append("/invitations/");
        url.append(uuid_text(self.invitation_id).as_str());
        url.append("/accept");
        let mut subject = String::from_str("Invitation to join team: ");
        subject.append(self.team_name.as_str());
        let days = u64_to_decimal(self.expires_in_days as u64);

        let mut body_text = invitation_text_head(self.inviter_name.as_str(), self.team_name.as_str(), self.role.as_str());
        match &self.custom_message {
            Some(c) => {
                let part = invitation_text_custom(self.inviter_name.as_str(), c.as_str());
                body_text.append(part.as_str());
            },
            None => {},
        }
        let text_tail = invitation_text_tail(url.as_str(), days.as_str());
        body_text.append(text_tail.as_str());

        let mut body_html = invitation_html_head(self.team_name.as_str(), self.inviter_name.as_str(), self.role.as_str());
        match &self.custom_message {
            Some(c) => {
                let part = invitation_html_custom(self.inviter_name.as_str(), c.as_str());
                body_html.append(part.as_str());
            },
            None => {},
        }
        let html_tail = invitation_html_tail(url.as_str(), days.as_str(), recipient_email.as_str());
        body_html.append(html_tail.as_str());
        proof {
            let custom = opt_view(self.custom_message);
            let mid_t = match custom {
                Some(c) => invitation_text_custom_spec(self.inviter_name@, c),
                None => Seq::<char>::empty(),
            };
            assert(body_text@ =~= invitation_text_head_spec(self.inviter_name@, self.team_name@, self.role@) + mid_t
                + invitation_text_tail_spec(url@, decimal(self.expires_in_days as nat)));
            let mid_h = match custom {
                Some(c) => invitation_html_custom_spec(self.inviter_name@, c),
                None => Seq::<char>::empty(),
            };
            assert(body_html@ =~= invitation_html_head_spec(self.team_name@, self.inviter_name@, self.role@) + mid_h
                + invitation_html_tail_spec(url@, decimal(self.expires_in_days as nat), recipient_email@));
        }
        Ok(
            EmailMessage::new(recipient_email, from_email, subject, body_text).with_html(body_html).with_metadata(
                String::from_str("email_type"),
                String::from_str("team_invitation"),
            ).with_metadata(String::from_str("team_id"), uuid_text(self.team_id)).with_metadata(
                String::from_str("invitation_id"),
                uuid_text(self.invitation_id),
            ).with_metadata(String::from_str("role"), copy_text(&self.role)).with_metadata(
                String::from_str("template_version"),
                String::from_str("1.0"),
            ),
        )
    }
}

/// The greeting of a password reset email.
pub open spec fn reset_greeting(user_name: Option<Seq<char>>) -> Seq<char> {
    match user_name {
        Some(n) => "Hi "@ + n + ","@,
        None => "Hi there,"@,
    }
}

/// The link that resets a password.
pub open spec fn reset_url_spec(token: Seq<char>) -> Seq<char> {
    "https://framecast.app/auth/reset-password?token="@ + token
}

/// Builder of password reset emails.
pub struct PasswordResetTemplate {
    user_name: Option<String>,
    reset_token: String,
    expires_in_hours: u32,
}

impl PasswordResetTemplate {
    pub closed spec fn spec_user_name(&self) -> Option<Seq<char>> {
        opt_view(self.user_name)
    }

    pub closed spec fn spec_reset_token(&self) -> Seq<char> {
        self.reset_token@
    }

    pub closed spec fn spec_expires_in_hours(&self) -> u32 {
        self.expires_in_hours
    }

    /// A template for the token, with no user name, expiring in 24 hours.
    pub fn new(reset_token: String) -> (r: Self)
        ensures
            r.spec_user_name() is None,
            r.spec_reset_token() == reset_token@,
            r.spec_expires_in_hours() == 24,
    {
        PasswordResetTemplate { user_name: None, reset_token, expires_in_hours: 24 }
    }

    /// The template greeting the user by name.
    pub fn with_user_name(self, name: String) -> (r: Self)
        ensures
            r.spec_user_name() == Some(name@),
            r.spec_reset_token() == self.spec_reset_token(),
            r.spec_expires_in_hours() == self.spec_expires_in_hours(),
    {
        PasswordResetTemplate { user_name: Some(name), ..self }
    }

    /// The template with another expiry, in hours.
    pub fn with_expiration_hours(self, hours: u32) -> (r: Self)
        ensures
            r.spec_expires_in_hours() == hours,
            r.spec_user_name() == self.spec_user_name(),
            r.spec_reset_token() == self.spec_reset_token(),
    {
        PasswordResetTemplate { expires_in_hours: hours, ..self }
    }

    /// The password reset email to `recipient_email` from `from_email`.
    pub fn build(&self, recipient_email: String, from_email: String) -> (r: Result<EmailMessage, EmailError>)
        ensures
            r matches Ok(m) && {
                let greeting = reset_greeting(self.spec_user_name());
                let url = reset_url_spec(self.spec_reset_token());
                let hours = decimal(self.spec_expires_in_hours() as nat);
                &&& m.to@ == recipient_email@
                &&& m.from@ == from_email@
                &&& m.reply_to is None
                &&& m.subject@ == "Reset your Framecast password"@
                &&& m.body_text@ == reset_text_spec(greeting, url, hours)
                &&& m.body_html matches Some(h) && h@ == reset_html_spec(greeting, url, hours)
                &&& m.spec_metadata() == Map::<Seq<char>, Seq<char>>::empty().insert(
                    "email_type"@,
                    "password_reset"@,
                ).insert("template_version"@, "1.0"@)
            },
    {
        let mut url = String::from_str("https://framecast.app/auth/reset-password?token=");
        url.append(self.reset_token.as_str());
        let greeting = match &self.user_name {
            Some(name) => {
                let mut g = String::from_str("Hi ");
                g.append(name.as_str());
                g.append(",");
                g
            },
            None => String::from_str("Hi there,"),
        };
        let hours = u64_to_decimal(self.expires_in_hours as u64);
        let body_text = reset_text(greeting.as_str(), url.as_str(), hours.as_str());
        let body_html = reset_html(greeting.as_str(), url.as_str(), hours.as_str());
        Ok(
            EmailMessage::new(
                recipient_email,
                from_email,
                String::from_str("Reset your Framecast password"),
                body_text,
            ).with_html(body_html).with_metadata(
                String::from_str("email_type"),
                String::from_str("password_reset"),
            ).with_metadata(String::from_str("template_version"), String::from_str("1.0")),
        )
    }
}

/// The accept link of an invitation names the team first and the invitation
/// second: it is 120 characters, with the team's ID (36 characters) right after
/// `https://framecast.app/teams/` and the invitation's ID right after the
/// `/invitations/` that follows it, and it ends in `/accept`.
pub proof fn lemma_invitation_link_layout(team_id: u128, invitation_id: u128)
    ensures
        public_invitation_url(team_id, invitation_id).len() == 120,
        public_invitation_url(team_id, invitation_id).subrange(0, 28) == "https://framecast.app/teams/"@,
        public_invitation_url(team_id, invitation_id).subrange(28, 64) == spec_uuid_text(team_id),
        public_invitation_url(team_id, invitation_id).subrange(64, 77) == "/invitations/"@,
        public_invitation_url(team_id, invitation_id).subrange(77, 113) == spec_uuid_text(invitation_id),
        public_invitation_url(team_id, invitation_id).subrange(113, 120) == "/accept"@,
{
    reveal_strlit("https://framecast.app/teams/");
    reveal_strlit("/invitations/");
    reveal_strlit("/accept");
    lemma_uuid_text_form(team_id);
    lemma_uuid_text_form(invitation_id);
    let u = public_invitation_url(team_id, invitation_id);
    assert(u.subrange(0, 28) =~= "https://framecast.app/teams/"@);
    assert(u.subrange(28, 64) =~= spec_uuid_text(team_id));
    assert(u.subrange(64, 77) =~= "/invitations/"@);
    assert(u.subrange(77, 113) =~= spec_uuid_text(invitation_id));
    assert(u.subrange(113, 120) =~= "/accept"@);
}

} // verus!
