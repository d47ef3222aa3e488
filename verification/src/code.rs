//! The commands, replies and errors of the protocol as a closed set of tags,
//! with one open tag for every command that the table does not know.
//!
//! Each known tag has a symbolic name and a wire token. A name that begins with
//! `RPL_` marks a reply, one that begins with `ERR_` an error. The wire token is
//! what stands in a line: the command's word, or the three digits of a numeric.

use vstd::prelude::*;
use crate::gen::parser::entry_of;
use crate::text::same;

verus! {

/// Representation of IRC commands, replies and errors.
#[derive(Clone, Debug, Eq, PartialEq)]
pub enum Code {
    /// PASS = "PASS"
    Pass,
    /// NICK = "NICK"
    Nick,
    /// USER = "USER"
    User,
    /// SERVER = "SERVER"
    Server,
    /// OPER = "OPER"
    Oper,
    /// SERVICE = "SERVICE"
    Service,
    /// QUIT = "QUIT"
    Quit,
    /// SQUIT = "SQUIT"
    Squit,
    /// JOIN = "JOIN"
    Join,
    /// PART = "PART"
    Part,
    /// MODE = "MODE"
    Mode,
    /// TOPIC = "TOPIC"
    Topic,
    /// NAMES = "NAMES"
    Names,
    /// LIST = "LIST"
    List,
    /// INVITE = "INVITE"
    Invite,
    /// KICK = "KICK"
    Kick,
    /// VERSION = "VERSION"
    Version,
    /// STATS = "STATS"
    Stats,
    /// LINKS = "LINKS"
    Links,
    /// TIME = "TIME"
    Time,
    /// CONNECT = "CONNECT"
    Connect,
    /// TRACE = "TRACE"
    Trace,
    /// ADMIN = "ADMIN"
    Admin,
    /// INFO = "INFO"
    Info,
    /// PRIVMSG = "PRIVMSG"
    Privmsg,
    /// NOTICE = "NOTICE"
    Notice,
    /// MOTD = "MOTD"
    Motd,
    /// LUSERS = "LUSERS"
    Lusers,
    /// SERVLIST = "SERVLIST"
    Servlist,
    /// SQUERY = "SQUERY"
    Squery,
    /// WHO = "WHO"
    Who,
    /// WHOIS = "WHOIS"
    Whois,
    /// WHOWAS = "WHOWAS"
    Whowas,
    /// KILL = "KILL"
    Kill,
    /// PING = "PING"
    Ping,
    /// PONG = "PONG"
    Pong,
    /// ERROR = "ERROR"
    Error,
    /// AWAY = "AWAY"
    Away,
    /// REHASH = "REHASH"
    Rehash,
    /// DIE = "DIE"
    Die,
    /// RESTART = "RESTART"
    Restart,
    /// SUMMON = "SUMMON"
    Summon,
    /// USERS = "USERS"
    Users,
    /// WALLOPS = "WALLOPS"
    Wallops,
    /// USERHOST = "USERHOST"
    Userhost,
    /// ISON = "ISON"
    Ison,
    /// RPL_WELCOME = "001"
    RplWelcome,
    /// RPL_YOURHOST = "002"
    RplYourhost,
    /// RPL_CREATED = "003"
    RplCreated,
    /// RPL_MYINFO = "004"
    RplMyinfo,
    /// RPL_BOUNCE = "005"
    RplBounce,
    /// RPL_TRACELINK = "200"
    RplTracelink,
    /// RPL_TRACECONNECTING = "201"
    RplTraceconnecting,
    /// RPL_TRACEHANDSHAKE = "202"
    RplTracehandshake,
    /// RPL_TRACEUNKNOWN = "203"
    RplTraceunknown,
    /// RPL_TRACEOPERATOR = "204"
    RplTraceoperator,
    /// RPL_TRACEUSER = "205"
    RplTraceuser,
    /// RPL_TRACESERVER = "206"
    RplTraceserver,
    /// RPL_TRACESERVICE = "207"
    RplTraceservice,
    /// RPL_TRACENEWTYPE = "208"
    RplTracenewtype,
    /// RPL_TRACECLASS = "209"
    RplTraceclass,
    /// RPL_TRACERECONNECT = "210"
    RplTracereconnect,
    /// RPL_STATSLINKINFO = "211"
    RplStatslinkinfo,
    /// RPL_STATSCOMMANDS = "212"
    RplStatscommands,
    /// RPL_ENDOFSTATS = "219"
    RplEndofstats,
    /// RPL_UMODEIS = "221"
    RplUmodeis,
    /// RPL_SERVLIST = "234"
    RplServlist,
    /// RPL_SERVLISTEND = "235"
    RplServlistend,
    /// RPL_STATSUPTIME = "242"
    RplStatsuptime,
    /// RPL_STATSOLINE = "243"
    RplStatsoline,
    /// RPL_LUSERCLIENT = "251"
    RplLuserclient,
    /// RPL_LUSEROP = "252"
    RplLuserop,
    /// RPL_LUSERUNKNOWN = "253"
    RplLuserunknown,
    /// RPL_LUSERCHANNELS = "254"
    RplLuserchannels,
    /// RPL_LUSERME = "255"
    RplLuserme,
    /// RPL_ADMINME = "256"
    RplAdminme,
    /// RPL_ADMINLOC1 = "257"
    RplAdminloc1,
    /// RPL_ADMINLOC2 = "258"
    RplAdminloc2,
    /// RPL_ADMINEMAIL = "259"
    RplAdminemail,
    /// RPL_TRACELOG = "261"
    RplTracelog,
    /// RPL_TRACEEND = "262"
    RplTraceend,
    /// RPL_TRYAGAIN = "263"
    RplTryagain,
    /// RPL_AWAY = "301"
    RplAway,
    /// RPL_USERHOST = "302"
    RplUserhost,
    /// RPL_ISON = "303"
    RplIson,
    /// RPL_UNAWAY = "305"
    RplUnaway,
    /// RPL_NOWAWAY = "306"
    RplNowaway,
    /// RPL_WHOISUSER = "311"
    RplWhoisuser,
    /// RPL_WHOISSERVER = "312"
    RplWhoisserver,
    /// RPL_WHOISOPERATOR = "313"
    RplWhoisoperator,
    /// RPL_WHOWASUSER = "314"
    RplWhowasuser,
    /// RPL_ENDOFWHO = "315"
    RplEndofwho,
    /// RPL_WHOISIDLE = "317"
    RplWhoisidle,
    /// RPL_ENDOFWHOIS = "318"
    RplEndofwhois,
    /// RPL_WHOISCHANNELS = "319"
    RplWhoischannels,
    /// RPL_LISTSTART = "321"
    RplListstart,
    /// RPL_LIST = "322"
    RplList,
    /// RPL_LISTEND = "323"
    RplListend,
    /// RPL_CHANNELMODEIS = "324"
    RplChannelmodeis,
    /// RPL_UNIQOPIS = "325"
    RplUniqopis,
    /// RPL_NOTOPIC = "331"
    RplNotopic,
    /// RPL_TOPIC = "332"
    RplTopic,
    /// RPL_INVITING = "341"
    RplInviting,
    /// RPL_SUMMONING = "342"
    RplSummoning,
    /// RPL_INVITELIST = "346"
    RplInvitelist,
    /// RPL_ENDOFINVITELIST = "347"
    RplEndofinvitelist,
    /// RPL_EXCEPTLIST = "348"
    RplExceptlist,
    /// RPL_ENDOFEXCEPTLIST = "349"
    RplEndofexceptlist,
    /// RPL_VERSION = "351"
    RplVersion,
    /// RPL_WHOREPLY = "352"
    RplWhoreply,
    /// RPL_NAMREPLY = "353"
    RplNamreply,
    /// RPL_LINKS = "364"
    RplLinks,
    /// RPL_ENDOFLINKS = "365"
    RplEndoflinks,
    /// RPL_ENDOFNAMES = "366"
    RplEndofnames,
    /// RPL_BANLIST = "367"
    RplBanlist,
    /// RPL_ENDOFBANLIST = "368"
    RplEndofbanlist,
    /// RPL_ENDOFWHOWAS = "369"
    RplEndofwhowas,
    /// RPL_INFO = "371"
    RplInfo,
    /// RPL_MOTD = "372"
    RplMotd,
    /// RPL_ENDOFINFO = "374"
    RplEndofinfo,
    /// RPL_MOTDSTART = "375"
    RplMotdstart,
    /// RPL_ENDOFMOTD = "376"
    RplEndofmotd,
    /// RPL_YOUREOPER = "381"
    RplYoureoper,
    /// RPL_REHASHING = "382"
    RplRehashing,
    /// RPL_YOURESERVICE = "383"
    RplYoureservice,
    /// RPL_TIME = "391"
    RplTime,
    /// RPL_USERSSTART = "392"
    RplUsersstart,
    /// RPL_USERS = "393"
    RplUsers,
    /// RPL_ENDOFUSERS = "394"
    RplEndofusers,
    /// RPL_NOUSERS = "395"
    RplNousers,
    /// ERR_NOSUCHNICK = "401"
    ErrNosuchnick,
    /// ERR_NOSUCHSERVER = "402"
    ErrNosuchserver,
    /// ERR_NOSUCHCHANNEL = "403"
    ErrNosuchchannel,
    /// ERR_CANNOTSENDTOCHAN = "404"
    ErrCannotsendtochan,
    /// ERR_TOOMANYCHANNELS = "405"
    ErrToomanychannels,
    /// ERR_WASNOSUCHNICK = "406"
    ErrWasnosuchnick,
    /// ERR_TOOMANYTARGETS = "407"
    ErrToomanytargets,
    /// ERR_NOSUCHSERVICE = "408"
    ErrNosuchservice,
    /// ERR_NOORIGIN = "409"
    ErrNoorigin,
    /// ERR_NORECIPIENT = "411"
    ErrNorecipient,
    /// ERR_NOTEXTTOSEND = "412"
    ErrNotexttosend,
    /// ERR_NOTOPLEVEL = "413"
    ErrNotoplevel,
    /// ERR_WILDTOPLEVEL = "414"
    ErrWildtoplevel,
    /// ERR_BADMASK = "415"
    ErrBadmask,
    /// ERR_UNKNOWNCOMMAND = "421"
    ErrUnknowncommand,
    /// ERR_NOMOTD = "422"
    ErrNomotd,
    /// ERR_NOADMININFO = "423"
    ErrNoadmininfo,
    /// ERR_FILEERROR = "424"
    ErrFileerror,
    /// ERR_NONICKNAMEGIVEN = "431"
    ErrNonicknamegiven,
    /// ERR_ERRONEUSNICKNAME = "432"
    ErrErroneusnickname,
    /// ERR_NICKNAMEINUSE = "433"
    ErrNicknameinuse,
    /// ERR_NICKCOLLISION = "436"
    ErrNickcollision,
    /// ERR_UNAVAILRESOURCE = "437"
    ErrUnavailresource,
    /// ERR_USERNOTINCHANNEL = "441"
    ErrUsernotinchannel,
    /// ERR_NOTONCHANNEL = "442"
    ErrNotonchannel,
    /// ERR_USERONCHANNEL = "443"
    ErrUseronchannel,
    /// ERR_NOLOGIN = "444"
    ErrNologin,
    /// ERR_SUMMONDISABLED = "445"
    ErrSummondisabled,
    /// ERR_USERSDISABLED = "446"
    ErrUsersdisabled,
    /// ERR_NOTREGISTERED = "451"
    ErrNotregistered,
    /// ERR_NEEDMOREPARAMS = "461"
    ErrNeedmoreparams,
    /// ERR_ALREADYREGISTRED = "462"
    ErrAlreadyregistred,
    /// ERR_NOPERMFORHOST = "463"
    ErrNopermforhost,
    /// ERR_PASSWDMISMATCH = "464"
    ErrPasswdmismatch,
    /// ERR_YOUREBANNEDCREEP = "465"
    ErrYourebannedcreep,
    /// ERR_YOUWILLBEBANNED = "466"
    ErrYouwillbebanned,
    /// ERR_KEYSET = "467"
    ErrKeyset,
    /// ERR_CHANNELISFULL = "471"
    ErrChannelisfull,
    /// ERR_UNKNOWNMODE = "472"
    ErrUnknownmode,
    /// ERR_INVITEONLYCHAN = "473"
    ErrInviteonlychan,
    /// ERR_BANNEDFROMCHAN = "474"
    ErrBannedfromchan,
    /// ERR_BADCHANNELKEY = "475"
    ErrBadchannelkey,
    /// ERR_BADCHANMASK = "476"
    ErrBadchanmask,
    /// ERR_NOCHANMODES = "477"
    ErrNochanmodes,
    /// ERR_BANLISTFULL = "478"
    ErrBanlistfull,
    /// ERR_NOPRIVILEGES = "481"
    ErrNoprivileges,
    /// ERR_CHANOPRIVSNEEDED = "482"
    ErrChanoprivsneeded,
    /// ERR_CANTKILLSERVER = "483"
    ErrCantkillserver,
    /// ERR_RESTRICTED = "484"
    ErrRestricted,
    /// ERR_UNIQOPPRIVSNEEDED = "485"
    ErrUniqopprivsneeded,
    /// ERR_NOOPERHOST = "491"
    ErrNooperhost,
    /// ERR_UMODEUNKNOWNFLAG = "501"
    ErrUmodeunknownflag,
    /// ERR_USERSDONTMATCH = "502"
    ErrUsersdontmatch,
    /// Codes that are unknown end up in here.
    Unknown(String),
}

/// The beginning of a reply's symbolic name.
pub open spec fn reply_marker() -> Seq<char> {
    "RPL_"@
}

/// The beginning of an error's symbolic name.
pub open spec fn error_marker() -> Seq<char> {
    "ERR_"@
}

/// The tag whose wire token is `token`, if the table has one.
pub open spec fn known(token: Seq<char>) -> Option<Code> {
    if token == "PASS"@ {
        Some(Code::Pass)
    } else if token == "NICK"@ {
        Some(Code::Nick)
    } else if token == "USER"@ {
        Some(Code::User)
    } else if token == "SERVER"@ {
        Some(Code::Server)
    } else if token == "OPER"@ {
        Some(Code::Oper)
    } else if token == "SERVICE"@ {
        Some(Code::Service)
    } else if token == "QUIT"@ {
        Some(Code::Quit)
    } else if token == "SQUIT"@ {
        Some(Code::Squit)
    } else if token == "JOIN"@ {
        Some(Code::Join)
    } else if token == "PART"@ {
        Some(Code::Part)
    } else if token == "MODE"@ {
        Some(Code::Mode)
    } else if token == "TOPIC"@ {
        Some(Code::Topic)
    } else if token == "NAMES"@ {
        Some(Code::Names)
    } else if token == "LIST"@ {
        Some(Code::List)
    } else if token == "INVITE"@ {
        Some(Code::Invite)
    } else if token == "KICK"@ {
        Some(Code::Kick)
    } else if token == "VERSION"@ {
        Some(Code::Version)
    } else if token == "STATS"@ {
        Some(Code::Stats)
    } else if token == "LINKS"@ {
        Some(Code::Links)
    } else if token == "TIME"@ {
        Some(Code::Time)
    } else if token == "CONNECT"@ {
        Some(Code::Connect)
    } else if token == "TRACE"@ {
        Some(Code::Trace)
    } else if token == "ADMIN"@ {
        Some(Code::Admin)
    } else if token == "INFO"@ {
        Some(Code::Info)
    } else if token == "PRIVMSG"@ {
        Some(Code::Privmsg)
    } else if token == "NOTICE"@ {
        Some(Code::Notice)
    } else if token == "MOTD"@ {
        Some(Code::Motd)
    } else if token == "LUSERS"@ {
        Some(Code::Lusers)
    } else if token == "SERVLIST"@ {
        Some(Code::Servlist)
    } else if token == "SQUERY"@ {
        Some(Code::Squery)
    } else if token == "WHO"@ {
        Some(Code::Who)
    } else if token == "WHOIS"@ {
        Some(Code::Whois)
    } else if token == "WHOWAS"@ {
        Some(Code::Whowas)
    } else if token == "KILL"@ {
        Some(Code::Kill)
    } else if token == "PING"@ {
        Some(Code::Ping)
    } else if token == "PONG"@ {
        Some(Code::Pong)
    } else if token == "ERROR"@ {
        Some(Code::Error)
    } else if token == "AWAY"@ {
        Some(Code::Away)
    } else if token == "REHASH"@ {
        Some(Code::Rehash)
    } else if token == "DIE"@ {
        Some(Code::Die)
    } else if token == "RESTART"@ {
        Some(Code::Restart)
    } else if token == "SUMMON"@ {
        Some(Code::Summon)
    } else if token == "USERS"@ {
        Some(Code::Users)
    } else if token == "WALLOPS"@ {
        Some(Code::Wallops)
    } else if token == "USERHOST"@ {
        Some(Code::Userhost)
    } else if token == "ISON"@ {
        Some(Code::Ison)
    } else if token == "001"@ {
        Some(Code::RplWelcome)
    } else if token == "002"@ {
        Some(Code::RplYourhost)
    } else if token == "003"@ {
        Some(Code::RplCreated)
    } else if token == "004"@ {
        Some(Code::RplMyinfo)
    } else if token == "005"@ {
        Some(Code::RplBounce)
    } else if token == "200"@ {
        Some(Code::RplTracelink)
    } else if token == "201"@ {
        Some(Code::RplTraceconnecting)
    } else if token == "202"@ {
        Some(Code::RplTracehandshake)
    } else if token == "203"@ {
        Some(Code::RplTraceunknown)
    } else if token == "204"@ {
        Some(Code::RplTraceoperator)
    } else if token == "205"@ {
        Some(Code::RplTraceuser)
    } else if token == "206"@ {
        Some(Code::RplTraceserver)
    } else if token == "207"@ {
        Some(Code::RplTraceservice)
    } else if token == "208"@ {
        Some(Code::RplTracenewtype)
    } else if token == "209"@ {
        Some(Code::RplTraceclass)
    } else if token == "210"@ {
        Some(Code::RplTracereconnect)
    } else if token == "211"@ {
        Some(Code::RplStatslinkinfo)
    } else if token == "212"@ {
        Some(Code::RplStatscommands)
    } else if token == "219"@ {
        Some(Code::RplEndofstats)
    } else if token == "221"@ {
        Some(Code::RplUmodeis)
    } else if token == "234"@ {
        Some(Code::RplServlist)
    } else if token == "235"@ {
        Some(Code::RplServlistend)
    } else if token == "242"@ {
        Some(Code::RplStatsuptime)
    } else if token == "243"@ {
        Some(Code::RplStatsoline)
    } else if token == "251"@ {
        Some(Code::RplLuserclient)
    } else if token == "252"@ {
        Some(Code::RplLuserop)
    } else if token == "253"@ {
        Some(Code::RplLuserunknown)
    } else if token == "254"@ {
        Some(Code::RplLuserchannels)
    } else if token == "255"@ {
        Some(Code::RplLuserme)
    } else if token == "256"@ {
        Some(Code::RplAdminme)
    } else if token == "257"@ {
        Some(Code::RplAdminloc1)
    } else if token == "258"@ {
        Some(Code::RplAdminloc2)
    } else if token == "259"@ {
        Some(Code::RplAdminemail)
    } else if token == "261"@ {
        Some(Code::RplTracelog)
    } else if token == "262"@ {
        Some(Code::RplTraceend)
    } else if token == "263"@ {
        Some(Code::RplTryagain)
    } else if token == "301"@ {
        Some(Code::RplAway)
    } else if token == "302"@ {
        Some(Code::RplUserhost)
    } else if token == "303"@ {
        Some(Code::RplIson)
    } else if token == "305"@ {
        Some(Code::RplUnaway)
    } else if token == "306"@ {
        Some(Code::RplNowaway)
    } else if token == "311"@ {
        Some(Code::RplWhoisuser)
    } else if token == "312"@ {
        Some(Code::RplWhoisserver)
    } else if token == "313"@ {
        Some(Code::RplWhoisoperator)
    } else if token == "314"@ {
        Some(Code::RplWhowasuser)
    } else if token == "315"@ {
        Some(Code::RplEndofwho)
    } else if token == "317"@ {
        Some(Code::RplWhoisidle)
    } else if token == "318"@ {
        Some(Code::RplEndofwhois)
    } else if token == "319"@ {
        Some(Code::RplWhoischannels)
    } else if token == "321"@ {
        Some(Code::RplListstart)
    } else if token == "322"@ {
        Some(Code::RplList)
    } else if token == "323"@ {
        Some(Code::RplListend)
    } else if token == "324"@ {
        Some(Code::RplChannelmodeis)
    } else if token == "325"@ {
        Some(Code::RplUniqopis)
    } else if token == "331"@ {
        Some(Code::RplNotopic)
    } else if token == "332"@ {
        Some(Code::RplTopic)
    } else if token == "341"@ {
        Some(Code::RplInviting)
    } else if token == "342"@ {
        Some(Code::RplSummoning)
    } else if token == "346"@ {
        Some(Code::RplInvitelist)
    } else if token == "347"@ {
        Some(Code::RplEndofinvitelist)
    } else if token == "348"@ {
        Some(Code::RplExceptlist)
    } else if token == "349"@ {
        Some(Code::RplEndofexceptlist)
    } else if token == "351"@ {
        Some(Code::RplVersion)
    } else if token == "352"@ {
        Some(Code::RplWhoreply)
    } else if token == "353"@ {
        Some(Code::RplNamreply)
    } else if token == "364"@ {
        Some(Code::RplLinks)
    } else if token == "365"@ {
        Some(Code::RplEndoflinks)
    } else if token == "366"@ {
        Some(Code::RplEndofnames)
    } else if token == "367"@ {
        Some(Code::RplBanlist)
    } else if token == "368"@ {
        Some(Code::RplEndofbanlist)
    } else if token == "369"@ {
        Some(Code::RplEndofwhowas)
    } else if token == "371"@ {
        Some(Code::RplInfo)
    } else if token == "372"@ {
        Some(Code::RplMotd)
    } else if token == "374"@ {
        Some(Code::RplEndofinfo)
    } else if token == "375"@ {
        Some(Code::RplMotdstart)
    } else if token == "376"@ {
        Some(Code::RplEndofmotd)
    } else if token == "381"@ {
        Some(Code::RplYoureoper)
    } else if token == "382"@ {
        Some(Code::RplRehashing)
    } else if token == "383"@ {
        Some(Code::RplYoureservice)
    } else if token == "391"@ {
        Some(Code::RplTime)
    } else if token == "392"@ {
        Some(Code::RplUsersstart)
    } else if token == "393"@ {
        Some(Code::RplUsers)
    } else if token == "394"@ {
        Some(Code::RplEndofusers)
    } else if token == "395"@ {
        Some(Code::RplNousers)
    } else if token == "401"@ {
        Some(Code::ErrNosuchnick)
    } else if token == "402"@ {
        Some(Code::ErrNosuchserver)
    } else if token == "403"@ {
        Some(Code::ErrNosuchchannel)
    } else if token == "404"@ {
        Some(Code::ErrCannotsendtochan)
    } else if token == "405"@ {
        Some(Code::ErrToomanychannels)
    } else if token == "406"@ {
        Some(Code::ErrWasnosuchnick)
    } else if token == "407"@ {
        Some(Code::ErrToomanytargets)
    } else if token == "408"@ {
        Some(Code::ErrNosuchservice)
    } else if token == "409"@ {
        Some(Code::ErrNoorigin)
    } else if token == "411"@ {
        Some(Code::ErrNorecipient)
    } else if token == "412"@ {
        Some(Code::ErrNotexttosend)
    } else if token == "413"@ {
        Some(Code::ErrNotoplevel)
    } else if token == "414"@ {
        Some(Code::ErrWildtoplevel)
    } else if token == "415"@ {
        Some(Code::ErrBadmask)
    } else if token == "421"@ {
        Some(Code::ErrUnknowncommand)
    } else if token == "422"@ {
        Some(Code::ErrNomotd)
    } else if token == "423"@ {
        Some(Code::ErrNoadmininfo)
    } else if token == "424"@ {
        Some(Code::ErrFileerror)
    } else if token == "431"@ {
        Some(Code::ErrNonicknamegiven)
    } else if token == "432"@ {
        Some(Code::ErrErroneusnickname)
    } else if token == "433"@ {
        Some(Code::ErrNicknameinuse)
    } else if token == "436"@ {
        Some(Code::ErrNickcollision)
    } else if token == "437"@ {
        Some(Code::ErrUnavailresource)
    } else if token == "441"@ {
        Some(Code::ErrUsernotinchannel)
    } else if token == "442"@ {
        Some(Code::ErrNotonchannel)
    } else if token == "443"@ {
        Some(Code::ErrUseronchannel)
    } else if token == "444"@ {
        Some(Code::ErrNologin)
    } else if token == "445"@ {
        Some(Code::ErrSummondisabled)
    } else if token == "446"@ {
        Some(Code::ErrUsersdisabled)
    } else if token == "451"@ {
        Some(Code::ErrNotregistered)
    } else if token == "461"@ {
        Some(Code::ErrNeedmoreparams)
    } else if token == "462"@ {
        Some(Code::ErrAlreadyregistred)
    } else if token == "463"@ {
        Some(Code::ErrNopermforhost)
    } else if token == "464"@ {
        Some(Code::ErrPasswdmismatch)
    } else if token == "465"@ {
        Some(Code::ErrYourebannedcreep)
    } else if token == "466"@ {
        Some(Code::ErrYouwillbebanned)
    } else if token == "467"@ {
        Some(Code::ErrKeyset)
    } else if token == "471"@ {
        Some(Code::ErrChannelisfull)
    } else if token == "472"@ {
        Some(Code::ErrUnknownmode)
    } else if token == "473"@ {
        Some(Code::ErrInviteonlychan)
    } else if token == "474"@ {
        Some(Code::ErrBannedfromchan)
    } else if token == "475"@ {
        Some(Code::ErrBadchannelkey)
    } else if token == "476"@ {
        Some(Code::ErrBadchanmask)
    } else if token == "477"@ {
        Some(Code::ErrNochanmodes)
    } else if token == "478"@ {
        Some(Code::ErrBanlistfull)
    } else if token == "481"@ {
        Some(Code::ErrNoprivileges)
    } else if token == "482"@ {
        Some(Code::ErrChanoprivsneeded)
    } else if token == "483"@ {
        Some(Code::ErrCantkillserver)
    } else if token == "484"@ {
        Some(Code::ErrRestricted)
    } else if token == "485"@ {
        Some(Code::ErrUniqopprivsneeded)
    } else if token == "491"@ {
        Some(Code::ErrNooperhost)
    } else if token == "501"@ {
        Some(Code::ErrUmodeunknownflag)
    } else if token == "502"@ {
        Some(Code::ErrUsersdontmatch)
    } else {
        None
    }
}

impl Code {
    /// The symbolic name of a known tag.
    pub open spec fn name(&self) -> Option<Seq<char>> {
        match *self {
            Code::Pass => Some("PASS"@),
            Code::Nick => Some("NICK"@),
            Code::User => Some("USER"@),
            Code::Server => Some("SERVER"@),
            Code::Oper => Some("OPER"@),
            Code::Service => Some("SERVICE"@),
            Code::Quit => Some("QUIT"@),
            Code::Squit => Some("SQUIT"@),
            Code::Join => Some("JOIN"@),
            Code::Part => Some("PART"@),
            Code::Mode => Some("MODE"@),
            Code::Topic => Some("TOPIC"@),
            Code::Names => Some("NAMES"@),
            Code::List => Some("LIST"@),
            Code::Invite => Some("INVITE"@),
            Code::Kick => Some("KICK"@),
            Code::Version => Some("VERSION"@),
            Code::Stats => Some("STATS"@),
            Code::Links => Some("LINKS"@),
            Code::Time => Some("TIME"@),
            Code::Connect => Some("CONNECT"@),
            Code::Trace => Some("TRACE"@),
            Code::Admin => Some("ADMIN"@),
            Code::Info => Some("INFO"@),
            Code::Privmsg => Some("PRIVMSG"@),
            Code::Notice => Some("NOTICE"@),
            Code::Motd => Some("MOTD"@),
            Code::Lusers => Some("LUSERS"@),
            Code::Servlist => Some("SERVLIST"@),
            Code::Squery => Some("SQUERY"@),
            Code::Who => Some("WHO"@),
            Code::Whois => Some("WHOIS"@),
            Code::Whowas => Some("WHOWAS"@),
            Code::Kill => Some("KILL"@),
            Code::Ping => Some("PING"@),
            Code::Pong => Some("PONG"@),
            Code::Error => Some("ERROR"@),
            Code::Away => Some("AWAY"@),
            Code::Rehash => Some("REHASH"@),
            Code::Die => Some("DIE"@),
            Code::Restart => Some("RESTART"@),
            Code::Summon => Some("SUMMON"@),
            Code::Users => Some("USERS"@),
            Code::Wallops => Some("WALLOPS"@),
            Code::Userhost => Some("USERHOST"@),
            Code::Ison => Some("ISON"@),
            Code::RplWelcome => Some("RPL_WELCOME"@),
            Code::RplYourhost => Some("RPL_YOURHOST"@),
            Code::RplCreated => Some("RPL_CREATED"@),
            Code::RplMyinfo => Some("RPL_MYINFO"@),
            Code::RplBounce => Some("RPL_BOUNCE"@),
            Code::RplTracelink => Some("RPL_TRACELINK"@),
            Code::RplTraceconnecting => Some("RPL_TRACECONNECTING"@),
            Code::RplTracehandshake => Some("RPL_TRACEHANDSHAKE"@),
            Code::RplTraceunknown => Some("RPL_TRACEUNKNOWN"@),
            Code::RplTraceoperator => Some("RPL_TRACEOPERATOR"@),
            Code::RplTraceuser => Some("RPL_TRACEUSER"@),
            Code::RplTraceserver => Some("RPL_TRACESERVER"@),
            Code::RplTraceservice => Some("RPL_TRACESERVICE"@),
            Code::RplTracenewtype => Some("RPL_TRACENEWTYPE"@),
            Code::RplTraceclass => Some("RPL_TRACECLASS"@),
            Code::RplTracereconnect => Some("RPL_TRACERECONNECT"@),
            Code::RplStatslinkinfo => Some("RPL_STATSLINKINFO"@),
            Code::RplStatscommands => Some("RPL_STATSCOMMANDS"@),
            Code::RplEndofstats => Some("RPL_ENDOFSTATS"@),
            Code::RplUmodeis => Some("RPL_UMODEIS"@),
            Code::RplServlist => Some("RPL_SERVLIST"@),
            Code::RplServlistend => Some("RPL_SERVLISTEND"@),
            Code::RplStatsuptime => Some("RPL_STATSUPTIME"@),
            Code::RplStatsoline => Some("RPL_STATSOLINE"@),
            Code::RplLuserclient => Some("RPL_LUSERCLIENT"@),
            Code::RplLuserop => Some("RPL_LUSEROP"@),
            Code::RplLuserunknown => Some("RPL_LUSERUNKNOWN"@),
            Code::RplLuserchannels => Some("RPL_LUSERCHANNELS"@),
            Code::RplLuserme => Some("RPL_LUSERME"@),
            Code::RplAdminme => Some("RPL_ADMINME"@),
            Code::RplAdminloc1 => Some("RPL_ADMINLOC1"@),
            Code::RplAdminloc2 => Some("RPL_ADMINLOC2"@),
            Code::RplAdminemail => Some("RPL_ADMINEMAIL"@),
            Code::RplTracelog => Some("RPL_TRACELOG"@),
            Code::RplTraceend => Some("RPL_TRACEEND"@),
            Code::RplTryagain => Some("RPL_TRYAGAIN"@),
            Code::RplAway => Some("RPL_AWAY"@),
            Code::RplUserhost => Some("RPL_USERHOST"@),
            Code::RplIson => Some("RPL_ISON"@),
            Code::RplUnaway => Some("RPL_UNAWAY"@),
            Code::RplNowaway => Some("RPL_NOWAWAY"@),
            Code::RplWhoisuser => Some("RPL_WHOISUSER"@),
            Code::RplWhoisserver => Some("RPL_WHOISSERVER"@),
            Code::RplWhoisoperator => Some("RPL_WHOISOPERATOR"@),
            Code::RplWhowasuser => Some("RPL_WHOWASUSER"@),
            Code::RplEndofwho => Some("RPL_ENDOFWHO"@),
            Code::RplWhoisidle => Some("RPL_WHOISIDLE"@),
            Code::RplEndofwhois => Some("RPL_ENDOFWHOIS"@),
            Code::RplWhoischannels => Some("RPL_WHOISCHANNELS"@),
            Code::RplListstart => Some("RPL_LISTSTART"@),
            Code::RplList => Some("RPL_LIST"@),
            Code::RplListend => Some("RPL_LISTEND"@),
            Code::RplChannelmodeis => Some("RPL_CHANNELMODEIS"@),
            Code::RplUniqopis => Some("RPL_UNIQOPIS"@),
            Code::RplNotopic => Some("RPL_NOTOPIC"@),
            Code::RplTopic => Some("RPL_TOPIC"@),
            Code::RplInviting => Some("RPL_INVITING"@),
            Code::RplSummoning => Some("RPL_SUMMONING"@),
            Code::RplInvitelist => Some("RPL_INVITELIST"@),
            Code::RplEndofinvitelist => Some("RPL_ENDOFINVITELIST"@),
            Code::RplExceptlist => Some("RPL_EXCEPTLIST"@),
            Code::RplEndofexceptlist => Some("RPL_ENDOFEXCEPTLIST"@),
            Code::RplVersion => Some("RPL_VERSION"@),
            Code::RplWhoreply => Some("RPL_WHOREPLY"@),
            Code::RplNamreply => Some("RPL_NAMREPLY"@),
            Code::RplLinks => Some("RPL_LINKS"@),
            Code::RplEndoflinks => Some("RPL_ENDOFLINKS"@),
            Code::RplEndofnames => Some("RPL_ENDOFNAMES"@),
            Code::RplBanlist => Some("RPL_BANLIST"@),
            Code::RplEndofbanlist => Some("RPL_ENDOFBANLIST"@),
            Code::RplEndofwhowas => Some("RPL_ENDOFWHOWAS"@),
            Code::RplInfo => Some("RPL_INFO"@),
            Code::RplMotd => Some("RPL_MOTD"@),
            Code::RplEndofinfo => Some("RPL_ENDOFINFO"@),
            Code::RplMotdstart => Some("RPL_MOTDSTART"@),
            Code::RplEndofmotd => Some("RPL_ENDOFMOTD"@),
            Code::RplYoureoper => Some("RPL_YOUREOPER"@),
            Code::RplRehashing => Some("RPL_REHASHING"@),
            Code::RplYoureservice => Some("RPL_YOURESERVICE"@),
            Code::RplTime => Some("RPL_TIME"@),
            Code::RplUsersstart => Some("RPL_USERSSTART"@),
            Code::RplUsers => Some("RPL_USERS"@),
            Code::RplEndofusers => Some("RPL_ENDOFUSERS"@),
            Code::RplNousers => Some("RPL_NOUSERS"@),
            Code::ErrNosuchnick => Some("ERR_NOSUCHNICK"@),
            Code::ErrNosuchserver => Some("ERR_NOSUCHSERVER"@),
            Code::ErrNosuchchannel => Some("ERR_NOSUCHCHANNEL"@),
            Code::ErrCannotsendtochan => Some("ERR_CANNOTSENDTOCHAN"@),
            Code::ErrToomanychannels => Some("ERR_TOOMANYCHANNELS"@),
            Code::ErrWasnosuchnick => Some("ERR_WASNOSUCHNICK"@),
            Code::ErrToomanytargets => Some("ERR_TOOMANYTARGETS"@),
            Code::ErrNosuchservice => Some("ERR_NOSUCHSERVICE"@),
            Code::ErrNoorigin => Some("ERR_NOORIGIN"@),
            Code::ErrNorecipient => Some("ERR_NORECIPIENT"@),
            Code::ErrNotexttosend => Some("ERR_NOTEXTTOSEND"@),
            Code::ErrNotoplevel => Some("ERR_NOTOPLEVEL"@),
            Code::ErrWildtoplevel => Some("ERR_WILDTOPLEVEL"@),
            Code::ErrBadmask => Some("ERR_BADMASK"@),
            Code::ErrUnknowncommand => Some("ERR_UNKNOWNCOMMAND"@),
            Code::ErrNomotd => Some("ERR_NOMOTD"@),
            Code::ErrNoadmininfo => Some("ERR_NOADMININFO"@),
            Code::ErrFileerror => Some("ERR_FILEERROR"@),
            Code::ErrNonicknamegiven => Some("ERR_NONICKNAMEGIVEN"@),
            Code::ErrErroneusnickname => Some("ERR_ERRONEUSNICKNAME"@),
            Code::ErrNicknameinuse => Some("ERR_NICKNAMEINUSE"@),
            Code::ErrNickcollision => Some("ERR_NICKCOLLISION"@),
            Code::ErrUnavailresource => Some("ERR_UNAVAILRESOURCE"@),
            Code::ErrUsernotinchannel => Some("ERR_USERNOTINCHANNEL"@),
            Code::ErrNotonchannel => Some("ERR_NOTONCHANNEL"@),
            Code::ErrUseronchannel => Some("ERR_USERONCHANNEL"@),
            Code::ErrNologin => Some("ERR_NOLOGIN"@),
            Code::ErrSummondisabled => Some("ERR_SUMMONDISABLED"@),
            Code::ErrUsersdisabled => Some("ERR_USERSDISABLED"@),
            Code::ErrNotregistered => Some("ERR_NOTREGISTERED"@),
            Code::ErrNeedmoreparams => Some("ERR_NEEDMOREPARAMS"@),
            Code::ErrAlreadyregistred => Some("ERR_ALREADYREGISTRED"@),
            Code::ErrNopermforhost => Some("ERR_NOPERMFORHOST"@),
            Code::ErrPasswdmismatch => Some("ERR_PASSWDMISMATCH"@),
            Code::ErrYourebannedcreep => Some("ERR_YOUREBANNEDCREEP"@),
            Code::ErrYouwillbebanned => Some("ERR_YOUWILLBEBANNED"@),
            Code::ErrKeyset => Some("ERR_KEYSET"@),
            Code::ErrChannelisfull => Some("ERR_CHANNELISFULL"@),
            Code::ErrUnknownmode => Some("ERR_UNKNOWNMODE"@),
            Code::ErrInviteonlychan => Some("ERR_INVITEONLYCHAN"@),
            Code::ErrBannedfromchan => Some("ERR_BANNEDFROMCHAN"@),
            Code::ErrBadchannelkey => Some("ERR_BADCHANNELKEY"@),
            Code::ErrBadchanmask => Some("ERR_BADCHANMASK"@),
            Code::ErrNochanmodes => Some("ERR_NOCHANMODES"@),
            Code::ErrBanlistfull => Some("ERR_BANLISTFULL"@),
            Code::ErrNoprivileges => Some("ERR_NOPRIVILEGES"@),
            Code::ErrChanoprivsneeded => Some("ERR_CHANOPRIVSNEEDED"@),
            Code::ErrCantkillserver => Some("ERR_CANTKILLSERVER"@),
            Code::ErrRestricted => Some("ERR_RESTRICTED"@),
            Code::ErrUniqopprivsneeded => Some("ERR_UNIQOPPRIVSNEEDED"@),
            Code::ErrNooperhost => Some("ERR_NOOPERHOST"@),
            Code::ErrUmodeunknownflag => Some("ERR_UMODEUNKNOWNFLAG"@),
            Code::ErrUsersdontmatch => Some("ERR_USERSDONTMATCH"@),
            Code::Unknown(_) => None,
        }
    }

    /// The token that stands for the tag in a line.
    pub open spec fn wire(&self) -> Seq<char> {
        match *self {
            Code::Pass => "PASS"@,
            Code::Nick => "NICK"@,
            Code::User => "USER"@,
            Code::Server => "SERVER"@,
            Code::Oper => "OPER"@,
            Code::Service => "SERVICE"@,
            Code::Quit => "QUIT"@,
            Code::Squit => "SQUIT"@,
            Code::Join => "JOIN"@,
            Code::Part => "PART"@,
            Code::Mode => "MODE"@,
            Code::Topic => "TOPIC"@,
            Code::Names => "NAMES"@,
            Code::List => "LIST"@,
            Code::Invite => "INVITE"@,
            Code::Kick => "KICK"@,
            Code::Version => "VERSION"@,
            Code::Stats => "STATS"@,
            Code::Links => "LINKS"@,
            Code::Time => "TIME"@,
            Code::Connect => "CONNECT"@,
            Code::Trace => "TRACE"@,
            Code::Admin => "ADMIN"@,
            Code::Info => "INFO"@,
            Code::Privmsg => "PRIVMSG"@,
            Code::Notice => "NOTICE"@,
            Code::Motd => "MOTD"@,
            Code::Lusers => "LUSERS"@,
            Code::Servlist => "SERVLIST"@,
            Code::Squery => "SQUERY"@,
            Code::Who => "WHO"@,
            Code::Whois => "WHOIS"@,
            Code::Whowas => "WHOWAS"@,
            Code::Kill => "KILL"@,
            Code::Ping => "PING"@,
            Code::Pong => "PONG"@,
            Code::Error => "ERROR"@,
            Code::Away => "AWAY"@,
            Code::Rehash => "REHASH"@,
            Code::Die => "DIE"@,
            Code::Restart => "RESTART"@,
            Code::Summon => "SUMMON"@,
            Code::Users => "USERS"@,
            Code::Wallops => "WALLOPS"@,
            Code::Userhost => "USERHOST"@,
            Code::Ison => "ISON"@,
            Code::RplWelcome => "001"@,
            Code::RplYourhost => "002"@,
            Code::RplCreated => "003"@,
            Code::RplMyinfo => "004"@,
            Code::RplBounce => "005"@,
            Code::RplTracelink => "200"@,
            Code::RplTraceconnecting => "201"@,
            Code::RplTracehandshake => "202"@,
            Code::RplTraceunknown => "203"@,
            Code::RplTraceoperator => "204"@,
            Code::RplTraceuser => "205"@,
            Code::RplTraceserver => "206"@,
            Code::RplTraceservice => "207"@,
            Code::RplTracenewtype => "208"@,
            Code::RplTraceclass => "209"@,
            Code::RplTracereconnect => "210"@,
            Code::RplStatslinkinfo => "211"@,
            Code::RplStatscommands => "212"@,
            Code::RplEndofstats => "219"@,
            Code::RplUmodeis => "221"@,
            Code::RplServlist => "234"@,
            Code::RplServlistend => "235"@,
            Code::RplStatsuptime => "242"@,
            Code::RplStatsoline => "243"@,
            Code::RplLuserclient => "251"@,
            Code::RplLuserop => "252"@,
            Code::RplLuserunknown => "253"@,
            Code::RplLuserchannels => "254"@,
            Code::RplLuserme => "255"@,
            Code::RplAdminme => "256"@,
            Code::RplAdminloc1 => "257"@,
            Code::RplAdminloc2 => "258"@,
            Code::RplAdminemail => "259"@,
            Code::RplTracelog => "261"@,
            Code::RplTraceend => "262"@,
            Code::RplTryagain => "263"@,
            Code::RplAway => "301"@,
            Code::RplUserhost => "302"@,
            Code::RplIson => "303"@,
            Code::RplUnaway => "305"@,
            Code::RplNowaway => "306"@,
            Code::RplWhoisuser => "311"@,
            Code::RplWhoisserver => "312"@,
            Code::RplWhoisoperator => "313"@,
            Code::RplWhowasuser => "314"@,
            Code::RplEndofwho => "315"@,
            Code::RplWhoisidle => "317"@,
            Code::RplEndofwhois => "318"@,
            Code::RplWhoischannels => "319"@,
            Code::RplListstart => "321"@,
            Code::RplList => "322"@,
            Code::RplListend => "323"@,
            Code::RplChannelmodeis => "324"@,
            Code::RplUniqopis => "325"@,
            Code::RplNotopic => "331"@,
            Code::RplTopic => "332"@,
            Code::RplInviting => "341"@,
            Code::RplSummoning => "342"@,
            Code::RplInvitelist => "346"@,
            Code::RplEndofinvitelist => "347"@,
            Code::RplExceptlist => "348"@,
            Code::RplEndofexceptlist => "349"@,
            Code::RplVersion => "351"@,
            Code::RplWhoreply => "352"@,
            Code::RplNamreply => "353"@,
            Code::RplLinks => "364"@,
            Code::RplEndoflinks => "365"@,
            Code::RplEndofnames => "366"@,
            Code::RplBanlist => "367"@,
            Code::RplEndofbanlist => "368"@,
            Code::RplEndofwhowas => "369"@,
            Code::RplInfo => "371"@,
            Code::RplMotd => "372"@,
            Code::RplEndofinfo => "374"@,
            Code::RplMotdstart => "375"@,
            Code::RplEndofmotd => "376"@,
            Code::RplYoureoper => "381"@,
            Code::RplRehashing => "382"@,
            Code::RplYoureservice => "383"@,
            Code::RplTime => "391"@,
            Code::RplUsersstart => "392"@,
            Code::RplUsers => "393"@,
            Code::RplEndofusers => "394"@,
            Code::RplNousers => "395"@,
            Code::ErrNosuchnick => "401"@,
            Code::ErrNosuchserver => "402"@,
            Code::ErrNosuchchannel => "403"@,
            Code::ErrCannotsendtochan => "404"@,
            Code::ErrToomanychannels => "405"@,
            Code::ErrWasnosuchnick => "406"@,
            Code::ErrToomanytargets => "407"@,
            Code::ErrNosuchservice => "408"@,
            Code::ErrNoorigin => "409"@,
            Code::ErrNorecipient => "411"@,
            Code::ErrNotexttosend => "412"@,
            Code::ErrNotoplevel => "413"@,
            Code::ErrWildtoplevel => "414"@,
            Code::ErrBadmask => "415"@,
            Code::ErrUnknowncommand => "421"@,
            Code::ErrNomotd => "422"@,
            Code::ErrNoadmininfo => "423"@,
            Code::ErrFileerror => "424"@,
            Code::ErrNonicknamegiven => "431"@,
            Code::ErrErroneusnickname => "432"@,
            Code::ErrNicknameinuse => "433"@,
            Code::ErrNickcollision => "436"@,
            Code::ErrUnavailresource => "437"@,
            Code::ErrUsernotinchannel => "441"@,
            Code::ErrNotonchannel => "442"@,
            Code::ErrUseronchannel => "443"@,
            Code::ErrNologin => "444"@,
            Code::ErrSummondisabled => "445"@,
            Code::ErrUsersdisabled => "446"@,
            Code::ErrNotregistered => "451"@,
            Code::ErrNeedmoreparams => "461"@,
            Code::ErrAlreadyregistred => "462"@,
            Code::ErrNopermforhost => "463"@,
            Code::ErrPasswdmismatch => "464"@,
            Code::ErrYourebannedcreep => "465"@,
            Code::ErrYouwillbebanned => "466"@,
            Code::ErrKeyset => "467"@,
            Code::ErrChannelisfull => "471"@,
            Code::ErrUnknownmode => "472"@,
            Code::ErrInviteonlychan => "473"@,
            Code::ErrBannedfromchan => "474"@,
            Code::ErrBadchannelkey => "475"@,
            Code::ErrBadchanmask => "476"@,
            Code::ErrNochanmodes => "477"@,
            Code::ErrBanlistfull => "478"@,
            Code::ErrNoprivileges => "481"@,
            Code::ErrChanoprivsneeded => "482"@,
            Code::ErrCantkillserver => "483"@,
            Code::ErrRestricted => "484"@,
            Code::ErrUniqopprivsneeded => "485"@,
            Code::ErrNooperhost => "491"@,
            Code::ErrUmodeunknownflag => "501"@,
            Code::ErrUsersdontmatch => "502"@,
            Code::Unknown(text) => text@,
        }
    }

    /// The tag is the one that `token` stands for: the table's tag where the
    /// table knows the token, and else the open tag with the token as it is.
    pub open spec fn stands_for(&self, token: Seq<char>) -> bool {
        match known(token) {
            Some(code) => *self == code,
            None => *self matches Code::Unknown(text) && text@ == token,
        }
    }

    /// The tag's symbolic name begins with the reply marker.
    pub open spec fn spec_is_reply(&self) -> bool {
        match self.name() {
            Some(name) => reply_marker().is_prefix_of(name),
            None => false,
        }
    }

    /// The tag's symbolic name begins with the error marker.
    pub open spec fn spec_is_error(&self) -> bool {
        match self.name() {
            Some(name) => error_marker().is_prefix_of(name),
            None => false,
        }
    }

    /// Checks if the code is a reply.
    pub fn is_reply(&self) -> (reply: bool)
        ensures
            reply == self.spec_is_reply(),
    {
        proof {
            lemma_names_revealed();
        }
        match *self {
            Code::RplWelcome => true,
            Code::RplYourhost => true,
            Code::RplCreated => true,
            Code::RplMyinfo => true,
            Code::RplBounce => true,
            Code::RplTracelink => true,
            Code::RplTraceconnecting => true,
            Code::RplTracehandshake => true,
            Code::RplTraceunknown => true,
            Code::RplTraceoperator => true,
            Code::RplTraceuser => true,
            Code::RplTraceserver => true,
            Code::RplTraceservice => true,
            Code::RplTracenewtype => true,
            Code::RplTraceclass => true,
            Code::RplTracereconnect => true,
            Code::RplStatslinkinfo => true,
            Code::RplStatscommands => true,
            Code::RplEndofstats => true,
            Code::RplUmodeis => true,
            Code::RplServlist => true,
            Code::RplServlistend => true,
            Code::RplStatsuptime => true,
            Code::RplStatsoline => true,
            Code::RplLuserclient => true,
            Code::RplLuserop => true,
            Code::RplLuserunknown => true,
            Code::RplLuserchannels => true,
            Code::RplLuserme => true,
            Code::RplAdminme => true,
            Code::RplAdminloc1 => true,
            Code::RplAdminloc2 => true,
            Code::RplAdminemail => true,
            Code::RplTracelog => true,
            Code::RplTraceend => true,
            Code::RplTryagain => true,
            Code::RplAway => true,
            Code::RplUserhost => true,
            Code::RplIson => true,
            Code::RplUnaway => true,
            Code::RplNowaway => true,
            Code::RplWhoisuser => true,
            Code::RplWhoisserver => true,
            Code::RplWhoisoperator => true,
            Code::RplWhowasuser => true,
            Code::RplEndofwho => true,
            Code::RplWhoisidle => true,
            Code::RplEndofwhois => true,
            Code::RplWhoischannels => true,
            Code::RplListstart => true,
            Code::RplList => true,
            Code::RplListend => true,
            Code::RplChannelmodeis => true,
            Code::RplUniqopis => true,
            Code::RplNotopic => true,
            Code::RplTopic => true,
            Code::RplInviting => true,
            Code::RplSummoning => true,
            Code::RplInvitelist => true,
            Code::RplEndofinvitelist => true,
            Code::RplExceptlist => true,
            Code::RplEndofexceptlist => true,
            Code::RplVersion => true,
            Code::RplWhoreply => true,
            Code::RplNamreply => true,
            Code::RplLinks => true,
            Code::RplEndoflinks => true,
            Code::RplEndofnames => true,
            Code::RplBanlist => true,
            Code::RplEndofbanlist => true,
            Code::RplEndofwhowas => true,
            Code::RplInfo => true,
            Code::RplMotd => true,
            Code::RplEndofinfo => true,
            Code::RplMotdstart => true,
            Code::RplEndofmotd => true,
            Code::RplYoureoper => true,
            Code::RplRehashing => true,
            Code::RplYoureservice => true,
            Code::RplTime => true,
            Code::RplUsersstart => true,
            Code::RplUsers => true,
            Code::RplEndofusers => true,
            Code::RplNousers => true,
            _ => false,
        }
    }

    /// Checks if the code is an error.
    pub fn is_error(&self) -> (error: bool)
        ensures
            error == self.spec_is_error(),
    {
        proof {
            lemma_names_revealed();
        }
        match *self {
            Code::ErrNosuchnick => true,
            Code::ErrNosuchserver => true,
            Code::ErrNosuchchannel => true,
            Code::ErrCannotsendtochan => true,
            Code::ErrToomanychannels => true,
            Code::ErrWasnosuchnick => true,
            Code::ErrToomanytargets => true,
            Code::ErrNosuchservice => true,
            Code::ErrNoorigin => true,
            Code::ErrNorecipient => true,
            Code::ErrNotexttosend => true,
            Code::ErrNotoplevel => true,
            Code::ErrWildtoplevel => true,
            Code::ErrBadmask => true,
            Code::ErrUnknowncommand => true,
            Code::ErrNomotd => true,
            Code::ErrNoadmininfo => true,
            Code::ErrFileerror => true,
            Code::ErrNonicknamegiven => true,
            Code::ErrErroneusnickname => true,
            Code::ErrNicknameinuse => true,
            Code::ErrNickcollision => true,
            Code::ErrUnavailresource => true,
            Code::ErrUsernotinchannel => true,
            Code::ErrNotonchannel => true,
            Code::ErrUseronchannel => true,
            Code::ErrNologin => true,
            Code::ErrSummondisabled => true,
            Code::ErrUsersdisabled => true,
            Code::ErrNotregistered => true,
            Code::ErrNeedmoreparams => true,
            Code::ErrAlreadyregistred => true,
            Code::ErrNopermforhost => true,
            Code::ErrPasswdmismatch => true,
            Code::ErrYourebannedcreep => true,
            Code::ErrYouwillbebanned => true,
            Code::ErrKeyset => true,
            Code::ErrChannelisfull => true,
            Code::ErrUnknownmode => true,
            Code::ErrInviteonlychan => true,
            Code::ErrBannedfromchan => true,
            Code::ErrBadchannelkey => true,
            Code::ErrBadchanmask => true,
            Code::ErrNochanmodes => true,
            Code::ErrBanlistfull => true,
            Code::ErrNoprivileges => true,
            Code::ErrChanoprivsneeded => true,
            Code::ErrCantkillserver => true,
            Code::ErrRestricted => true,
            Code::ErrUniqopprivsneeded => true,
            Code::ErrNooperhost => true,
            Code::ErrUmodeunknownflag => true,
            Code::ErrUsersdontmatch => true,
            _ => false,
        }
    }

    /// The tag that `token` stands for. Every token has one.
    pub fn from_token(token: &str) -> (code: Code)
        ensures
            code.stands_for(token@),
            code.wire() == token@,
    {
        if same(token, "PASS") {
            Code::Pass
        } else if same(token, "NICK") {
            Code::Nick
        } else if same(token, "USER") {
            Code::User
        } else if same(token, "SERVER") {
            Code::Server
        } else if same(token, "OPER") {
            Code::Oper
        } else if same(token, "SERVICE") {
            Code::Service
        } else if same(token, "QUIT") {
            Code::Quit
        } else if same(token, "SQUIT") {
            Code::Squit
        } else if same(token, "JOIN") {
            Code::Join
        } else if same(token, "PART") {
            Code::Part
        } else if same(token, "MODE") {
            Code::Mode
        } else if same(token, "TOPIC") {
            Code::Topic
        } else if same(token, "NAMES") {
            Code::Names
        } else if same(token, "LIST") {
            Code::List
        } else if same(token, "INVITE") {
            Code::Invite
        } else if same(token, "KICK") {
            Code::Kick
        } else if same(token, "VERSION") {
            Code::Version
        } else if same(token, "STATS") {
            Code::Stats
        } else if same(token, "LINKS") {
            Code::Links
        } else if same(token, "TIME") {
            Code::Time
        } else if same(token, "CONNECT") {
            Code::Connect
        } else if same(token, "TRACE") {
            Code::Trace
        } else if same(token, "ADMIN") {
            Code::Admin
        } else if same(token, "INFO") {
            Code::Info
        } else if same(token, "PRIVMSG") {
            Code::Privmsg
        } else if same(token, "NOTICE") {
            Code::Notice
        } else if same(token, "MOTD") {
            Code::Motd
        } else if same(token, "LUSERS") {
            Code::Lusers
        } else if same(token, "SERVLIST") {
            Code::Servlist
        } else if same(token, "SQUERY") {
            Code::Squery
        } else if same(token, "WHO") {
            Code::Who
        } else if same(token, "WHOIS") {
            Code::Whois
        } else if same(token, "WHOWAS") {
            Code::Whowas
        } else if same(token, "KILL") {
            Code::Kill
        } else if same(token, "PING") {
            Code::Ping
        } else if same(token, "PONG") {
            Code::Pong
        } else if same(token, "ERROR") {
            Code::Error
        } else if same(token, "AWAY") {
            Code::Away
        } else if same(token, "REHASH") {
            Code::Rehash
        } else if same(token, "DIE") {
            Code::Die
        } else if same(token, "RESTART") {
            Code::Restart
        } else if same(token, "SUMMON") {
            Code::Summon
        } else if same(token, "USERS") {
            Code::Users
        } else if same(token, "WALLOPS") {
            Code::Wallops
        } else if same(token, "USERHOST") {
            Code::Userhost
        } else if same(token, "ISON") {
            Code::Ison
        } else if same(token, "001") {
            Code::RplWelcome
        } else if same(token, "002") {
            Code::RplYourhost
        } else if same(token, "003") {
            Code::RplCreated
        } else if same(token, "004") {
            Code::RplMyinfo
        } else if same(token, "005") {
            Code::RplBounce
        } else if same(token, "200") {
            Code::RplTracelink
        } else if same(token, "201") {
            Code::RplTraceconnecting
        } else if same(token, "202") {
            Code::RplTracehandshake
        } else if same(token, "203") {
            Code::RplTraceunknown
        } else if same(token, "204") {
            Code::RplTraceoperator
        } else if same(token, "205") {
            Code::RplTraceuser
        } else if same(token, "206") {
            Code::RplTraceserver
        } else if same(token, "207") {
            Code::RplTraceservice
        } else if same(token, "208") {
            Code::RplTracenewtype
        } else if same(token, "209") {
            Code::RplTraceclass
        } else if same(token, "210") {
            Code::RplTracereconnect
        } else if same(token, "211") {
            Code::RplStatslinkinfo
        } else if same(token, "212") {
            Code::RplStatscommands
        } else if same(token, "219") {
            Code::RplEndofstats
        } else if same(token, "221") {
            Code::RplUmodeis
        } else if same(token, "234") {
            Code::RplServlist
        } else if same(token, "235") {
            Code::RplServlistend
        } else if same(token, "242") {
            Code::RplStatsuptime
        } else if same(token, "243") {
            Code::RplStatsoline
        } else if same(token, "251") {
            Code::RplLuserclient
        } else if same(token, "252") {
            Code::RplLuserop
        } else if same(token, "253") {
            Code::RplLuserunknown
        } else if same(token, "254") {
            Code::RplLuserchannels
        } else if same(token, "255") {
            Code::RplLuserme
        } else if same(token, "256") {
            Code::RplAdminme
        } else if same(token, "257") {
            Code::RplAdminloc1
        } else if same(token, "258") {
            Code::RplAdminloc2
        } else if same(token, "259") {
            Code::RplAdminemail
        } else if same(token, "261") {
            Code::RplTracelog
        } else if same(token, "262") {
            Code::RplTraceend
        } else if same(token, "263") {
            Code::RplTryagain
        } else if same(token, "301") {
            Code::RplAway
        } else if same(token, "302") {
            Code::RplUserhost
        } else if same(token, "303") {
            Code::RplIson
        } else if same(token, "305") {
            Code::RplUnaway
        } else if same(token, "306") {
            Code::RplNowaway
        } else if same(token, "311") {
            Code::RplWhoisuser
        } else if same(token, "312") {
            Code::RplWhoisserver
        } else if same(token, "313") {
            Code::RplWhoisoperator
        } else if same(token, "314") {
            Code::RplWhowasuser
        } else if same(token, "315") {
            Code::RplEndofwho
        } else if same(token, "317") {
            Code::RplWhoisidle
        } else if same(token, "318") {
            Code::RplEndofwhois
        } else if same(token, "319") {
            Code::RplWhoischannels
        } else if same(token, "321") {
            Code::RplListstart
        } else if same(token, "322") {
            Code::RplList
        } else if same(token, "323") {
            Code::RplListend
        } else if same(token, "324") {
            Code::RplChannelmodeis
        } else if same(token, "325") {
            Code::RplUniqopis
        } else if same(token, "331") {
            Code::RplNotopic
        } else if same(token, "332") {
            Code::RplTopic
        } else if same(token, "341") {
            Code::RplInviting
        } else if same(token, "342") {
            Code::RplSummoning
        } else if same(token, "346") {
            Code::RplInvitelist
        } else if same(token, "347") {
            Code::RplEndofinvitelist
        } else if same(token, "348") {
            Code::RplExceptlist
        } else if same(token, "349") {
            Code::RplEndofexceptlist
        } else if same(token, "351") {
            Code::RplVersion
        } else if same(token, "352") {
            Code::RplWhoreply
        } else if same(token, "353") {
            Code::RplNamreply
        } else if same(token, "364") {
            Code::RplLinks
        } else if same(token, "365") {
            Code::RplEndoflinks
        } else if same(token, "366") {
            Code::RplEndofnames
        } else if same(token, "367") {
            Code::RplBanlist
        } else if same(token, "368") {
            Code::RplEndofbanlist
        } else if same(token, "369") {
            Code::RplEndofwhowas
        } else if same(token, "371") {
            Code::RplInfo
        } else if same(token, "372") {
            Code::RplMotd
        } else if same(token, "374") {
            Code::RplEndofinfo
        } else if same(token, "375") {
            Code::RplMotdstart
        } else if same(token, "376") {
            Code::RplEndofmotd
        } else if same(token, "381") {
            Code::RplYoureoper
        } else if same(token, "382") {
            Code::RplRehashing
        } else if same(token, "383") {
            Code::RplYoureservice
        } else if same(token, "391") {
            Code::RplTime
        } else if same(token, "392") {
            Code::RplUsersstart
        } else if same(token, "393") {
            Code::RplUsers
        } else if same(token, "394") {
            Code::RplEndofusers
        } else if same(token, "395") {
            Code::RplNousers
        } else if same(token, "401") {
            Code::ErrNosuchnick
        } else if same(token, "402") {
            Code::ErrNosuchserver
        } else if same(token, "403") {
            Code::ErrNosuchchannel
        } else if same(token, "404") {
            Code::ErrCannotsendtochan
        } else if same(token, "405") {
            Code::ErrToomanychannels
        } else if same(token, "406") {
            Code::ErrWasnosuchnick
        } else if same(token, "407") {
            Code::ErrToomanytargets
        } else if same(token, "408") {
            Code::ErrNosuchservice
        } else if same(token, "409") {
            Code::ErrNoorigin
        } else if same(token, "411") {
            Code::ErrNorecipient
        } else if same(token, "412") {
            Code::ErrNotexttosend
        } else if same(token, "413") {
            Code::ErrNotoplevel
        } else if same(token, "414") {
            Code::ErrWildtoplevel
        } else if same(token, "415") {
            Code::ErrBadmask
        } else if same(token, "421") {
            Code::ErrUnknowncommand
        } else if same(token, "422") {
            Code::ErrNomotd
        } else if same(token, "423") {
            Code::ErrNoadmininfo
        } else if same(token, "424") {
            Code::ErrFileerror
        } else if same(token, "431") {
            Code::ErrNonicknamegiven
        } else if same(token, "432") {
            Code::ErrErroneusnickname
        } else if same(token, "433") {
            Code::ErrNicknameinuse
        } else if same(token, "436") {
            Code::ErrNickcollision
        } else if same(token, "437") {
            Code::ErrUnavailresource
        } else if same(token, "441") {
            Code::ErrUsernotinchannel
        } else if same(token, "442") {
            Code::ErrNotonchannel
        } else if same(token, "443") {
            Code::ErrUseronchannel
        } else if same(token, "444") {
            Code::ErrNologin
        } else if same(token, "445") {
            Code::ErrSummondisabled
        } else if same(token, "446") {
            Code::ErrUsersdisabled
        } else if same(token, "451") {
            Code::ErrNotregistered
        } else if same(token, "461") {
            Code::ErrNeedmoreparams
        } else if same(token, "462") {
            Code::ErrAlreadyregistred
        } else if same(token, "463") {
            Code::ErrNopermforhost
        } else if same(token, "464") {
            Code::ErrPasswdmismatch
        } else if same(token, "465") {
            Code::ErrYourebannedcreep
        } else if same(token, "466") {
            Code::ErrYouwillbebanned
        } else if same(token, "467") {
            Code::ErrKeyset
        } else if same(token, "471") {
            Code::ErrChannelisfull
        } else if same(token, "472") {
            Code::ErrUnknownmode
        } else if same(token, "473") {
            Code::ErrInviteonlychan
        } else if same(token, "474") {
            Code::ErrBannedfromchan
        } else if same(token, "475") {
            Code::ErrBadchannelkey
        } else if same(token, "476") {
            Code::ErrBadchanmask
        } else if same(token, "477") {
            Code::ErrNochanmodes
        } else if same(token, "478") {
            Code::ErrBanlistfull
        } else if same(token, "481") {
            Code::ErrNoprivileges
        } else if same(token, "482") {
            Code::ErrChanoprivsneeded
        } else if same(token, "483") {
            Code::ErrCantkillserver
        } else if same(token, "484") {
            Code::ErrRestricted
        } else if same(token, "485") {
            Code::ErrUniqopprivsneeded
        } else if same(token, "491") {
            Code::ErrNooperhost
        } else if same(token, "501") {
            Code::ErrUmodeunknownflag
        } else if same(token, "502") {
            Code::ErrUsersdontmatch
        } else {
            Code::Unknown(token.to_owned())
        }
    }

    /// The token that stands for the tag in a line.
    pub fn to_wire(&self) -> (token: String)
        ensures
            token@ == self.wire(),
    {
        match self {
            Code::Pass => "PASS".to_owned(),
            Code::Nick => "NICK".to_owned(),
            Code::User => "USER".to_owned(),
            Code::Server => "SERVER".to_owned(),
            Code::Oper => "OPER".to_owned(),
            Code::Service => "SERVICE".to_owned(),
            Code::Quit => "QUIT".to_owned(),
            Code::Squit => "SQUIT".to_owned(),
            Code::Join => "JOIN".to_owned(),
            Code::Part => "PART".to_owned(),
            Code::Mode => "MODE".to_owned(),
            Code::Topic => "TOPIC".to_owned(),
            Code::Names => "NAMES".to_owned(),
            Code::List => "LIST".to_owned(),
            Code::Invite => "INVITE".to_owned(),
            Code::Kick => "KICK".to_owned(),
            Code::Version => "VERSION".to_owned(),
            Code::Stats => "STATS".to_owned(),
            Code::Links => "LINKS".to_owned(),
            Code::Time => "TIME".to_owned(),
            Code::Connect => "CONNECT".to_owned(),
            Code::Trace => "TRACE".to_owned(),
            Code::Admin => "ADMIN".to_owned(),
            Code::Info => "INFO".to_owned(),
            Code::Privmsg => "PRIVMSG".to_owned(),
            Code::Notice => "NOTICE".to_owned(),
            Code::Motd => "MOTD".to_owned(),
            Code::Lusers => "LUSERS".to_owned(),
            Code::Servlist => "SERVLIST".to_owned(),
            Code::Squery => "SQUERY".to_owned(),
            Code::Who => "WHO".to_owned(),
            Code::Whois => "WHOIS".to_owned(),
            Code::Whowas => "WHOWAS".to_owned(),
            Code::Kill => "KILL".to_owned(),
            Code::Ping => "PING".to_owned(),
            Code::Pong => "PONG".to_owned(),
            Code::Error => "ERROR".to_owned(),
            Code::Away => "AWAY".to_owned(),
            Code::Rehash => "REHASH".to_owned(),
            Code::Die => "DIE".to_owned(),
            Code::Restart => "RESTART".to_owned(),
            Code::Summon => "SUMMON".to_owned(),
            Code::Users => "USERS".to_owned(),
            Code::Wallops => "WALLOPS".to_owned(),
            Code::Userhost => "USERHOST".to_owned(),
            Code::Ison => "ISON".to_owned(),
            Code::RplWelcome => "001".to_owned(),
            Code::RplYourhost => "002".to_owned(),
            Code::RplCreated => "003".to_owned(),
            Code::RplMyinfo => "004".to_owned(),
            Code::RplBounce => "005".to_owned(),
            Code::RplTracelink => "200".to_owned(),
            Code::RplTraceconnecting => "201".to_owned(),
            Code::RplTracehandshake => "202".to_owned(),
            Code::RplTraceunknown => "203".to_owned(),
            Code::RplTraceoperator => "204".to_owned(),
            Code::RplTraceuser => "205".to_owned(),
            Code::RplTraceserver => "206".to_owned(),
            Code::RplTraceservice => "207".to_owned(),
            Code::RplTracenewtype => "208".to_owned(),
            Code::RplTraceclass => "209".to_owned(),
            Code::RplTracereconnect => "210".to_owned(),
            Code::RplStatslinkinfo => "211".to_owned(),
            Code::RplStatscommands => "212".to_owned(),
            Code::RplEndofstats => "219".to_owned(),
            Code::RplUmodeis => "221".to_owned(),
            Code::RplServlist => "234".to_owned(),
            Code::RplServlistend => "235".to_owned(),
            Code::RplStatsuptime => "242".to_owned(),
            Code::RplStatsoline => "243".to_owned(),
            Code::RplLuserclient => "251".to_owned(),
            Code::RplLuserop => "252".to_owned(),
            Code::RplLuserunknown => "253".to_owned(),
            Code::RplLuserchannels => "254".to_owned(),
            Code::RplLuserme => "255".to_owned(),
            Code::RplAdminme => "256".to_owned(),
            Code::RplAdminloc1 => "257".to_owned(),
            Code::RplAdminloc2 => "258".to_owned(),
            Code::RplAdminemail => "259".to_owned(),
            Code::RplTracelog => "261".to_owned(),
            Code::RplTraceend => "262".to_owned(),
            Code::RplTryagain => "263".to_owned(),
            Code::RplAway => "301".to_owned(),
            Code::RplUserhost => "302".to_owned(),
            Code::RplIson => "303".to_owned(),
            Code::RplUnaway => "305".to_owned(),
            Code::RplNowaway => "306".to_owned(),
            Code::RplWhoisuser => "311".to_owned(),
            Code::RplWhoisserver => "312".to_owned(),
            Code::RplWhoisoperator => "313".to_owned(),
            Code::RplWhowasuser => "314".to_owned(),
            Code::RplEndofwho => "315".to_owned(),
            Code::RplWhoisidle => "317".to_owned(),
            Code::RplEndofwhois => "318".to_owned(),
            Code::RplWhoischannels => "319".to_owned(),
            Code::RplListstart => "321".to_owned(),
            Code::RplList => "322".to_owned(),
            Code::RplListend => "323".to_owned(),
            Code::RplChannelmodeis => "324".to_owned(),
            Code::RplUniqopis => "325".to_owned(),
            Code::RplNotopic => "331".to_owned(),
            Code::RplTopic => "332".to_owned(),
            Code::RplInviting => "341".to_owned(),
            Code::RplSummoning => "342".to_owned(),
            Code::RplInvitelist => "346".to_owned(),
            Code::RplEndofinvitelist => "347".to_owned(),
            Code::RplExceptlist => "348".to_owned(),
            Code::RplEndofexceptlist => "349".to_owned(),
            Code::RplVersion => "351".to_owned(),
            Code::RplWhoreply => "352".to_owned(),
            Code::RplNamreply => "353".to_owned(),
            Code::RplLinks => "364".to_owned(),
            Code::RplEndoflinks => "365".to_owned(),
            Code::RplEndofnames => "366".to_owned(),
            Code::RplBanlist => "367".to_owned(),
            Code::RplEndofbanlist => "368".to_owned(),
            Code::RplEndofwhowas => "369".to_owned(),
            Code::RplInfo => "371".to_owned(),
            Code::RplMotd => "372".to_owned(),
            Code::RplEndofinfo => "374".to_owned(),
            Code::RplMotdstart => "375".to_owned(),
            Code::RplEndofmotd => "376".to_owned(),
            Code::RplYoureoper => "381".to_owned(),
            Code::RplRehashing => "382".to_owned(),
            Code::RplYoureservice => "383".to_owned(),
            Code::RplTime => "391".to_owned(),
            Code::RplUsersstart => "392".to_owned(),
            Code::RplUsers => "393".to_owned(),
            Code::RplEndofusers => "394".to_owned(),
            Code::RplNousers => "395".to_owned(),
            Code::ErrNosuchnick => "401".to_owned(),
            Code::ErrNosuchserver => "402".to_owned(),
            Code::ErrNosuchchannel => "403".to_owned(),
            Code::ErrCannotsendtochan => "404".to_owned(),
            Code::ErrToomanychannels => "405".to_owned(),
            Code::ErrWasnosuchnick => "406".to_owned(),
            Code::ErrToomanytargets => "407".to_owned(),
            Code::ErrNosuchservice => "408".to_owned(),
            Code::ErrNoorigin => "409".to_owned(),
            Code::ErrNorecipient => "411".to_owned(),
            Code::ErrNotexttosend => "412".to_owned(),
            Code::ErrNotoplevel => "413".to_owned(),
            Code::ErrWildtoplevel => "414".to_owned(),
            Code::ErrBadmask => "415".to_owned(),
            Code::ErrUnknowncommand => "421".to_owned(),
            Code::ErrNomotd => "422".to_owned(),
            Code::ErrNoadmininfo => "423".to_owned(),
            Code::ErrFileerror => "424".to_owned(),
            Code::ErrNonicknamegiven => "431".to_owned(),
            Code::ErrErroneusnickname => "432".to_owned(),
            Code::ErrNicknameinuse => "433".to_owned(),
            Code::ErrNickcollision => "436".to_owned(),
            Code::ErrUnavailresource => "437".to_owned(),
            Code::ErrUsernotinchannel => "441".to_owned(),
            Code::ErrNotonchannel => "442".to_owned(),
            Code::ErrUseronchannel => "443".to_owned(),
            Code::ErrNologin => "444".to_owned(),
            Code::ErrSummondisabled => "445".to_owned(),
            Code::ErrUsersdisabled => "446".to_owned(),
            Code::ErrNotregistered => "451".to_owned(),
            Code::ErrNeedmoreparams => "461".to_owned(),
            Code::ErrAlreadyregistred => "462".to_owned(),
            Code::ErrNopermforhost => "463".to_owned(),
            Code::ErrPasswdmismatch => "464".to_owned(),
            Code::ErrYourebannedcreep => "465".to_owned(),
            Code::ErrYouwillbebanned => "466".to_owned(),
            Code::ErrKeyset => "467".to_owned(),
            Code::ErrChannelisfull => "471".to_owned(),
            Code::ErrUnknownmode => "472".to_owned(),
            Code::ErrInviteonlychan => "473".to_owned(),
            Code::ErrBannedfromchan => "474".to_owned(),
            Code::ErrBadchannelkey => "475".to_owned(),
            Code::ErrBadchanmask => "476".to_owned(),
            Code::ErrNochanmodes => "477".to_owned(),
            Code::ErrBanlistfull => "478".to_owned(),
            Code::ErrNoprivileges => "481".to_owned(),
            Code::ErrChanoprivsneeded => "482".to_owned(),
            Code::ErrCantkillserver => "483".to_owned(),
            Code::ErrRestricted => "484".to_owned(),
            Code::ErrUniqopprivsneeded => "485".to_owned(),
            Code::ErrNooperhost => "491".to_owned(),
            Code::ErrUmodeunknownflag => "501".to_owned(),
            Code::ErrUsersdontmatch => "502".to_owned(),
            Code::Unknown(text) => text.clone(),
        }
    }
}

impl std::str::FromStr for Code {
    type Err = std::convert::Infallible;

    /// Reads a tag from its wire token, as [`Code::from_token`] does.
    fn from_str(s: &str) -> (code: Result<Self, Self::Err>)
        ensures
            code matches Ok(c) && c.stands_for(s@),
    {
        Ok(Code::from_token(s))
    }
}

/// The first characters of every symbolic name, which decide whether a marker
/// begins it.
proof fn lemma_names_revealed()
    ensures
        forall|code: Code| #[trigger] code.spec_is_reply() == is_reply_tag(code),
        forall|code: Code| #[trigger] code.spec_is_error() == is_error_tag(code),
{
    reveal_strlit("RPL_");
    reveal_strlit("ERR_");
    reveal_strlit("PASS");
    reveal_strlit("NICK");
    reveal_strlit("USER");
    reveal_strlit("SERVER");
    reveal_strlit("OPER");
    reveal_strlit("SERVICE");
    reveal_strlit("QUIT");
    reveal_strlit("SQUIT");
    reveal_strlit("JOIN");
    reveal_strlit("PART");
    reveal_strlit("MODE");
    reveal_strlit("TOPIC");
    reveal_strlit("NAMES");
    reveal_strlit("LIST");
    reveal_strlit("INVITE");
    reveal_strlit("KICK");
    reveal_strlit("VERSION");
    reveal_strlit("STATS");
    reveal_strlit("LINKS");
    reveal_strlit("TIME");
    reveal_strlit("CONNECT");
    reveal_strlit("TRACE");
    reveal_strlit("ADMIN");
    reveal_strlit("INFO");
    reveal_strlit("PRIVMSG");
    reveal_strlit("NOTICE");
    reveal_strlit("MOTD");
    reveal_strlit("LUSERS");
    reveal_strlit("SERVLIST");
    reveal_strlit("SQUERY");
    reveal_strlit("WHO");
    reveal_strlit("WHOIS");
    reveal_strlit("WHOWAS");
    reveal_strlit("KILL");
    reveal_strlit("PING");
    reveal_strlit("PONG");
    reveal_strlit("ERROR");
    reveal_strlit("AWAY");
    reveal_strlit("REHASH");
    reveal_strlit("DIE");
    reveal_strlit("RESTART");
    reveal_strlit("SUMMON");
    reveal_strlit("USERS");
    reveal_strlit("WALLOPS");
    reveal_strlit("USERHOST");
    reveal_strlit("ISON");
    reveal_strlit("RPL_WELCOME");
    reveal_strlit("RPL_YOURHOST");
    reveal_strlit("RPL_CREATED");
    reveal_strlit("RPL_MYINFO");
    reveal_strlit("RPL_BOUNCE");
    reveal_strlit("RPL_TRACELINK");
    reveal_strlit("RPL_TRACECONNECTING");
    reveal_strlit("RPL_TRACEHANDSHAKE");
    reveal_strlit("RPL_TRACEUNKNOWN");
    reveal_strlit("RPL_TRACEOPERATOR");
    reveal_strlit("RPL_TRACEUSER");
    reveal_strlit("RPL_TRACESERVER");
    reveal_strlit("RPL_TRACESERVICE");
    reveal_strlit("RPL_TRACENEWTYPE");
    reveal_strlit("RPL_TRACECLASS");
    reveal_strlit("RPL_TRACERECONNECT");
    reveal_strlit("RPL_STATSLINKINFO");
    reveal_strlit("RPL_STATSCOMMANDS");
    reveal_strlit("RPL_ENDOFSTATS");
    reveal_strlit("RPL_UMODEIS");
    reveal_strlit("RPL_SERVLIST");
    reveal_strlit("RPL_SERVLISTEND");
    reveal_strlit("RPL_STATSUPTIME");
    reveal_strlit("RPL_STATSOLINE");
    reveal_strlit("RPL_LUSERCLIENT");
    reveal_strlit("RPL_LUSEROP");
    reveal_strlit("RPL_LUSERUNKNOWN");
    reveal_strlit("RPL_LUSERCHANNELS");
    reveal_strlit("RPL_LUSERME");
    reveal_strlit("RPL_ADMINME");
    reveal_strlit("RPL_ADMINLOC1");
    reveal_strlit("RPL_ADMINLOC2");
    reveal_strlit("RPL_ADMINEMAIL");
    reveal_strlit("RPL_TRACELOG");
    reveal_strlit("RPL_TRACEEND");
    reveal_strlit("RPL_TRYAGAIN");
    reveal_strlit("RPL_AWAY");
    reveal_strlit("RPL_USERHOST");
    reveal_strlit("RPL_ISON");
    reveal_strlit("RPL_UNAWAY");
    reveal_strlit("RPL_NOWAWAY");
    reveal_strlit("RPL_WHOISUSER");
    reveal_strlit("RPL_WHOISSERVER");
    reveal_strlit("RPL_WHOISOPERATOR");
    reveal_strlit("RPL_WHOWASUSER");
    reveal_strlit("RPL_ENDOFWHO");
    reveal_strlit("RPL_WHOISIDLE");
    reveal_strlit("RPL_ENDOFWHOIS");
    reveal_strlit("RPL_WHOISCHANNELS");
    reveal_strlit("RPL_LISTSTART");
    reveal_strlit("RPL_LIST");
    reveal_strlit("RPL_LISTEND");
    reveal_strlit("RPL_CHANNELMODEIS");
    reveal_strlit("RPL_UNIQOPIS");
    reveal_strlit("RPL_NOTOPIC");
    reveal_strlit("RPL_TOPIC");
    reveal_strlit("RPL_INVITING");
    reveal_strlit("RPL_SUMMONING");
    reveal_strlit("RPL_INVITELIST");
    reveal_strlit("RPL_ENDOFINVITELIST");
    reveal_strlit("RPL_EXCEPTLIST");
    reveal_strlit("RPL_ENDOFEXCEPTLIST");
    reveal_strlit("RPL_VERSION");
    reveal_strlit("RPL_WHOREPLY");
    reveal_strlit("RPL_NAMREPLY");
    reveal_strlit("RPL_LINKS");
    reveal_strlit("RPL_ENDOFLINKS");
    reveal_strlit("RPL_ENDOFNAMES");
    reveal_strlit("RPL_BANLIST");
    reveal_strlit("RPL_ENDOFBANLIST");
    reveal_strlit("RPL_ENDOFWHOWAS");
    reveal_strlit("RPL_INFO");
    reveal_strlit("RPL_MOTD");
    reveal_strlit("RPL_ENDOFINFO");
    reveal_strlit("RPL_MOTDSTART");
    reveal_strlit("RPL_ENDOFMOTD");
    reveal_strlit("RPL_YOUREOPER");
    reveal_strlit("RPL_REHASHING");
    reveal_strlit("RPL_YOURESERVICE");
    reveal_strlit("RPL_TIME");
    reveal_strlit("RPL_USERSSTART");
    reveal_strlit("RPL_USERS");
    reveal_strlit("RPL_ENDOFUSERS");
    reveal_strlit("RPL_NOUSERS");
    reveal_strlit("ERR_NOSUCHNICK");
    reveal_strlit("ERR_NOSUCHSERVER");
    reveal_strlit("ERR_NOSUCHCHANNEL");
    reveal_strlit("ERR_CANNOTSENDTOCHAN");
    reveal_strlit("ERR_TOOMANYCHANNELS");
    reveal_strlit("ERR_WASNOSUCHNICK");
    reveal_strlit("ERR_TOOMANYTARGETS");
    reveal_strlit("ERR_NOSUCHSERVICE");
    reveal_strlit("ERR_NOORIGIN");
    reveal_strlit("ERR_NORECIPIENT");
    reveal_strlit("ERR_NOTEXTTOSEND");
    reveal_strlit("ERR_NOTOPLEVEL");
    reveal_strlit("ERR_WILDTOPLEVEL");
    reveal_strlit("ERR_BADMASK");
    reveal_strlit("ERR_UNKNOWNCOMMAND");
    reveal_strlit("ERR_NOMOTD");
    reveal_strlit("ERR_NOADMININFO");
    reveal_strlit("ERR_FILEERROR");
    reveal_strlit("ERR_NONICKNAMEGIVEN");
    reveal_strlit("ERR_ERRONEUSNICKNAME");
    reveal_strlit("ERR_NICKNAMEINUSE");
    reveal_strlit("ERR_NICKCOLLISION");
    reveal_strlit("ERR_UNAVAILRESOURCE");
    reveal_strlit("ERR_USERNOTINCHANNEL");
    reveal_strlit("ERR_NOTONCHANNEL");
    reveal_strlit("ERR_USERONCHANNEL");
    reveal_strlit("ERR_NOLOGIN");
    reveal_strlit("ERR_SUMMONDISABLED");
    reveal_strlit("ERR_USERSDISABLED");
    reveal_strlit("ERR_NOTREGISTERED");
    reveal_strlit("ERR_NEEDMOREPARAMS");
    reveal_strlit("ERR_ALREADYREGISTRED");
    reveal_strlit("ERR_NOPERMFORHOST");
    reveal_strlit("ERR_PASSWDMISMATCH");
    reveal_strlit("ERR_YOUREBANNEDCREEP");
    reveal_strlit("ERR_YOUWILLBEBANNED");
    reveal_strlit("ERR_KEYSET");
    reveal_strlit("ERR_CHANNELISFULL");
    reveal_strlit("ERR_UNKNOWNMODE");
    reveal_strlit("ERR_INVITEONLYCHAN");
    reveal_strlit("ERR_BANNEDFROMCHAN");
    reveal_strlit("ERR_BADCHANNELKEY");
    reveal_strlit("ERR_BADCHANMASK");
    reveal_strlit("ERR_NOCHANMODES");
    reveal_strlit("ERR_BANLISTFULL");
    reveal_strlit("ERR_NOPRIVILEGES");
    reveal_strlit("ERR_CHANOPRIVSNEEDED");
    reveal_strlit("ERR_CANTKILLSERVER");
    reveal_strlit("ERR_RESTRICTED");
    reveal_strlit("ERR_UNIQOPPRIVSNEEDED");
    reveal_strlit("ERR_NOOPERHOST");
    reveal_strlit("ERR_UMODEUNKNOWNFLAG");
    reveal_strlit("ERR_USERSDONTMATCH");
    assert forall|code: Code| #[trigger] code.spec_is_reply() == is_reply_tag(code) by {
        match code.name() {
            Some(name) => {
                if is_reply_tag(code) {
                    assert(reply_marker() =~= name.subrange(0, 4));
                } else {
                    let head = name.subrange(0, 4);
                    assert(name.len() < 4 || head[0] != 'R' || head[1] != 'P' || head[2] != 'L'
                        || head[3] != '_');
                }
            },
            None => {},
        }
    }
    assert forall|code: Code| #[trigger] code.spec_is_error() == is_error_tag(code) by {
        match code.name() {
            Some(name) => {
                if is_error_tag(code) {
                    assert(error_marker() =~= name.subrange(0, 4));
                } else {
                    let head = name.subrange(0, 4);
                    assert(name.len() < 4 || head[0] != 'E' || head[1] != 'R' || head[2] != 'R'
                        || head[3] != '_');
                }
            },
            None => {},
        }
    }
}

/// A tag whose symbolic name begins with the reply marker reports that it is a
/// reply and no error; one whose name begins with the error marker reports
/// that it is an error and no reply; the open tag reports neither.
pub proof fn lemma_classification(code: Code)
    ensures
        match code.name() {
            Some(name) => {
                &&& reply_marker().is_prefix_of(name) ==> code.spec_is_reply()
                    && !code.spec_is_error()
                &&& error_marker().is_prefix_of(name) ==> code.spec_is_error()
                    && !code.spec_is_reply()
            },
            None => !code.spec_is_reply() && !code.spec_is_error(),
        },
{
    reveal_strlit("RPL_");
    reveal_strlit("ERR_");
    match code.name() {
        Some(name) => {
            if reply_marker().is_prefix_of(name) && error_marker().is_prefix_of(name) {
                assert(name.subrange(0, 4)[0] == 'R');
                assert(name.subrange(0, 4)[0] == 'E');
            }
        },
        None => {},
    }
}

/// A known tag is classified as the table's description classifies its name.
pub proof fn lemma_classified_as_described(code: Code)
    requires
        code.name() is Some,
    ensures
        code.spec_is_reply() == entry_of(code.name()->0, code.wire()).is_reply,
        code.spec_is_error() == entry_of(code.name()->0, code.wire()).is_error,
{
}

/// The token of a known tag stands for that tag and for no other: writing a
/// tag and reading the token back gives the tag.
/// The length of a token and its first three characters: enough to tell the
/// tokens of the table apart.
spec fn outline(token: Seq<char>) -> (nat, char, char, char) {
    (token.len(), token[0], token[1], token[2])
}

pub proof fn lemma_known_wire(code: Code)
    requires
        !(code is Unknown),
    ensures
        known(code.wire()) == Some(code),
        code.stands_for(code.wire()),
{
    reveal_strlit("PASS");
    assert(outline("PASS"@) == (4nat, 'P', 'A', 'S'));
    reveal_strlit("NICK");
    assert(outline("NICK"@) == (4nat, 'N', 'I', 'C'));
    reveal_strlit("USER");
    assert(outline("USER"@) == (4nat, 'U', 'S', 'E'));
    reveal_strlit("SERVER");
    assert(outline("SERVER"@) == (6nat, 'S', 'E', 'R'));
    reveal_strlit("OPER");
    assert(outline("OPER"@) == (4nat, 'O', 'P', 'E'));
    reveal_strlit("SERVICE");
    assert(outline("SERVICE"@) == (7nat, 'S', 'E', 'R'));
    reveal_strlit("QUIT");
    assert(outline("QUIT"@) == (4nat, 'Q', 'U', 'I'));
    reveal_strlit("SQUIT");
    assert(outline("SQUIT"@) == (5nat, 'S', 'Q', 'U'));
    reveal_strlit("JOIN");
    assert(outline("JOIN"@) == (4nat, 'J', 'O', 'I'));
    reveal_strlit("PART");
    assert(outline("PART"@) == (4nat, 'P', 'A', 'R'));
    reveal_strlit("MODE");
    assert(outline("MODE"@) == (4nat, 'M', 'O', 'D'));
    reveal_strlit("TOPIC");
    assert(outline("TOPIC"@) == (5nat, 'T', 'O', 'P'));
    reveal_strlit("NAMES");
    assert(outline("NAMES"@) == (5nat, 'N', 'A', 'M'));
    reveal_strlit("LIST");
    assert(outline("LIST"@) == (4nat, 'L', 'I', 'S'));
    reveal_strlit("INVITE");
    assert(outline("INVITE"@) == (6nat, 'I', 'N', 'V'));
    reveal_strlit("KICK");
    assert(outline("KICK"@) == (4nat, 'K', 'I', 'C'));
    reveal_strlit("VERSION");
    assert(outline("VERSION"@) == (7nat, 'V', 'E', 'R'));
    reveal_strlit("STATS");
    assert(outline("STATS"@) == (5nat, 'S', 'T', 'A'));
    reveal_strlit("LINKS");
    assert(outline("LINKS"@) == (5nat, 'L', 'I', 'N'));
    reveal_strlit("TIME");
    assert(outline("TIME"@) == (4nat, 'T', 'I', 'M'));
    reveal_strlit("CONNECT");
    assert(outline("CONNECT"@) == (7nat, 'C', 'O', 'N'));
    reveal_strlit("TRACE");
    assert(outline("TRACE"@) == (5nat, 'T', 'R', 'A'));
    reveal_strlit("ADMIN");
    assert(outline("ADMIN"@) == (5nat, 'A', 'D', 'M'));
    reveal_strlit("INFO");
    assert(outline("INFO"@) == (4nat, 'I', 'N', 'F'));
    reveal_strlit("PRIVMSG");
    assert(outline("PRIVMSG"@) == (7nat, 'P', 'R', 'I'));
    reveal_strlit("NOTICE");
    assert(outline("NOTICE"@) == (6nat, 'N', 'O', 'T'));
    reveal_strlit("MOTD");
    assert(outline("MOTD"@) == (4nat, 'M', 'O', 'T'));
    reveal_strlit("LUSERS");
    assert(outline("LUSERS"@) == (6nat, 'L', 'U', 'S'));
    reveal_strlit("SERVLIST");
    assert(outline("SERVLIST"@) == (8nat, 'S', 'E', 'R'));
    reveal_strlit("SQUERY");
    assert(outline("SQUERY"@) == (6nat, 'S', 'Q', 'U'));
    reveal_strlit("WHO");
    assert(outline("WHO"@) == (3nat, 'W', 'H', 'O'));
    reveal_strlit("WHOIS");
    assert(outline("WHOIS"@) == (5nat, 'W', 'H', 'O'));
    reveal_strlit("WHOWAS");
    assert(outline("WHOWAS"@) == (6nat, 'W', 'H', 'O'));
    reveal_strlit("KILL");
    assert(outline("KILL"@) == (4nat, 'K', 'I', 'L'));
    reveal_strlit("PING");
    assert(outline("PING"@) == (4nat, 'P', 'I', 'N'));
    reveal_strlit("PONG");
    assert(outline("PONG"@) == (4nat, 'P', 'O', 'N'));
    reveal_strlit("ERROR");
    assert(outline("ERROR"@) == (5nat, 'E', 'R', 'R'));
    reveal_strlit("AWAY");
    assert(outline("AWAY"@) == (4nat, 'A', 'W', 'A'));
    reveal_strlit("REHASH");
    assert(outline("REHASH"@) == (6nat, 'R', 'E', 'H'));
    reveal_strlit("DIE");
    assert(outline("DIE"@) == (3nat, 'D', 'I', 'E'));
    reveal_strlit("RESTART");
    assert(outline("RESTART"@) == (7nat, 'R', 'E', 'S'));
    reveal_strlit("SUMMON");
    assert(outline("SUMMON"@) == (6nat, 'S', 'U', 'M'));
    reveal_strlit("USERS");
    assert(outline("USERS"@) == (5nat, 'U', 'S', 'E'));
    reveal_strlit("WALLOPS");
    assert(outline("WALLOPS"@) == (7nat, 'W', 'A', 'L'));
    reveal_strlit("USERHOST");
    assert(outline("USERHOST"@) == (8nat, 'U', 'S', 'E'));
    reveal_strlit("ISON");
    assert(outline("ISON"@) == (4nat, 'I', 'S', 'O'));
    reveal_strlit("001");
    assert(outline("001"@) == (3nat, '0', '0', '1'));
    reveal_strlit("002");
    assert(outline("002"@) == (3nat, '0', '0', '2'));
    reveal_strlit("003");
    assert(outline("003"@) == (3nat, '0', '0', '3'));
    reveal_strlit("004");
    assert(outline("004"@) == (3nat, '0', '0', '4'));
    reveal_strlit("005");
    assert(outline("005"@) == (3nat, '0', '0', '5'));
    reveal_strlit("200");
    assert(outline("200"@) == (3nat, '2', '0', '0'));
    reveal_strlit("201");
    assert(outline("201"@) == (3nat, '2', '0', '1'));
    reveal_strlit("202");
    assert(outline("202"@) == (3nat, '2', '0', '2'));
    reveal_strlit("203");
    assert(outline("203"@) == (3nat, '2', '0', '3'));
    reveal_strlit("204");
    assert(outline("204"@) == (3nat, '2', '0', '4'));
    reveal_strlit("205");
    assert(outline("205"@) == (3nat, '2', '0', '5'));
    reveal_strlit("206");
    assert(outline("206"@) == (3nat, '2', '0', '6'));
    reveal_strlit("207");
    assert(outline("207"@) == (3nat, '2', '0', '7'));
    reveal_strlit("208");
    assert(outline("208"@) == (3nat, '2', '0', '8'));
    reveal_strlit("209");
    assert(outline("209"@) == (3nat, '2', '0', '9'));
    reveal_strlit("210");
    assert(outline("210"@) == (3nat, '2', '1', '0'));
    reveal_strlit("211");
    assert(outline("211"@) == (3nat, '2', '1', '1'));
    reveal_strlit("212");
    assert(outline("212"@) == (3nat, '2', '1', '2'));
    reveal_strlit("219");
    assert(outline("219"@) == (3nat, '2', '1', '9'));
    reveal_strlit("221");
    assert(outline("221"@) == (3nat, '2', '2', '1'));
    reveal_strlit("234");
    assert(outline("234"@) == (3nat, '2', '3', '4'));
    reveal_strlit("235");
    assert(outline("235"@) == (3nat, '2', '3', '5'));
    reveal_strlit("242");
    assert(outline("242"@) == (3nat, '2', '4', '2'));
    reveal_strlit("243");
    assert(outline("243"@) == (3nat, '2', '4', '3'));
    reveal_strlit("251");
    assert(outline("251"@) == (3nat, '2', '5', '1'));
    reveal_strlit("252");
    assert(outline("252"@) == (3nat, '2', '5', '2'));
    reveal_strlit("253");
    assert(outline("253"@) == (3nat, '2', '5', '3'));
    reveal_strlit("254");
    assert(outline("254"@) == (3nat, '2', '5', '4'));
    reveal_strlit("255");
    assert(outline("255"@) == (3nat, '2', '5', '5'));
    reveal_strlit("256");
    assert(outline("256"@) == (3nat, '2', '5', '6'));
    reveal_strlit("257");
    assert(outline("257"@) == (3nat, '2', '5', '7'));
    reveal_strlit("258");
    assert(outline("258"@) == (3nat, '2', '5', '8'));
    reveal_strlit("259");
    assert(outline("259"@) == (3nat, '2', '5', '9'));
    reveal_strlit("261");
    assert(outline("261"@) == (3nat, '2', '6', '1'));
    reveal_strlit("262");
    assert(outline("262"@) == (3nat, '2', '6', '2'));
    reveal_strlit("263");
    assert(outline("263"@) == (3nat, '2', '6', '3'));
    reveal_strlit("301");
    assert(outline("301"@) == (3nat, '3', '0', '1'));
    reveal_strlit("302");
    assert(outline("302"@) == (3nat, '3', '0', '2'));
    reveal_strlit("303");
    assert(outline("303"@) == (3nat, '3', '0', '3'));
    reveal_strlit("305");
    assert(outline("305"@) == (3nat, '3', '0', '5'));
    reveal_strlit("306");
    assert(outline("306"@) == (3nat, '3', '0', '6'));
    reveal_strlit("311");
    assert(outline("311"@) == (3nat, '3', '1', '1'));
    reveal_strlit("312");
    assert(outline("312"@) == (3nat, '3', '1', '2'));
    reveal_strlit("313");
    assert(outline("313"@) == (3nat, '3', '1', '3'));
    reveal_strlit("314");
    assert(outline("314"@) == (3nat, '3', '1', '4'));
    reveal_strlit("315");
    assert(outline("315"@) == (3nat, '3', '1', '5'));
    reveal_strlit("317");
    assert(outline("317"@) == (3nat, '3', '1', '7'));
    reveal_strlit("318");
    assert(outline("318"@) == (3nat, '3', '1', '8'));
    reveal_strlit("319");
    assert(outline("319"@) == (3nat, '3', '1', '9'));
    reveal_strlit("321");
    assert(outline("321"@) == (3nat, '3', '2', '1'));
    reveal_strlit("322");
    assert(outline("322"@) == (3nat, '3', '2', '2'));
    reveal_strlit("323");
    assert(outline("323"@) == (3nat, '3', '2', '3'));
    reveal_strlit("324");
    assert(outline("324"@) == (3nat, '3', '2', '4'));
    reveal_strlit("325");
    assert(outline("325"@) == (3nat, '3', '2', '5'));
    reveal_strlit("331");
    assert(outline("331"@) == (3nat, '3', '3', '1'));
    reveal_strlit("332");
    assert(outline("332"@) == (3nat, '3', '3', '2'));
    reveal_strlit("341");
    assert(outline("341"@) == (3nat, '3', '4', '1'));
    reveal_strlit("342");
    assert(outline("342"@) == (3nat, '3', '4', '2'));
    reveal_strlit("346");
    assert(outline("346"@) == (3nat, '3', '4', '6'));
    reveal_strlit("347");
    assert(outline("347"@) == (3nat, '3', '4', '7'));
    reveal_strlit("348");
    assert(outline("348"@) == (3nat, '3', '4', '8'));
    reveal_strlit("349");
    assert(outline("349"@) == (3nat, '3', '4', '9'));
    reveal_strlit("351");
    assert(outline("351"@) == (3nat, '3', '5', '1'));
    reveal_strlit("352");
    assert(outline("352"@) == (3nat, '3', '5', '2'));
    reveal_strlit("353");
    assert(outline("353"@) == (3nat, '3', '5', '3'));
    reveal_strlit("364");
    assert(outline("364"@) == (3nat, '3', '6', '4'));
    reveal_strlit("365");
    assert(outline("365"@) == (3nat, '3', '6', '5'));
    reveal_strlit("366");
    assert(outline("366"@) == (3nat, '3', '6', '6'));
    reveal_strlit("367");
    assert(outline("367"@) == (3nat, '3', '6', '7'));
    reveal_strlit("368");
    assert(outline("368"@) == (3nat, '3', '6', '8'));
    reveal_strlit("369");
    assert(outline("369"@) == (3nat, '3', '6', '9'));
    reveal_strlit("371");
    assert(outline("371"@) == (3nat, '3', '7', '1'));
    reveal_strlit("372");
    assert(outline("372"@) == (3nat, '3', '7', '2'));
    reveal_strlit("374");
    assert(outline("374"@) == (3nat, '3', '7', '4'));
    reveal_strlit("375");
    assert(outline("375"@) == (3nat, '3', '7', '5'));
    reveal_strlit("376");
    assert(outline("376"@) == (3nat, '3', '7', '6'));
    reveal_strlit("381");
    assert(outline("381"@) == (3nat, '3', '8', '1'));
    reveal_strlit("382");
    assert(outline("382"@) == (3nat, '3', '8', '2'));
    reveal_strlit("383");
    assert(outline("383"@) == (3nat, '3', '8', '3'));
    reveal_strlit("391");
    assert(outline("391"@) == (3nat, '3', '9', '1'));
    reveal_strlit("392");
    assert(outline("392"@) == (3nat, '3', '9', '2'));
    reveal_strlit("393");
    assert(outline("393"@) == (3nat, '3', '9', '3'));
    reveal_strlit("394");
    assert(outline("394"@) == (3nat, '3', '9', '4'));
    reveal_strlit("395");
    assert(outline("395"@) == (3nat, '3', '9', '5'));
    reveal_strlit("401");
    assert(outline("401"@) == (3nat, '4', '0', '1'));
    reveal_strlit("402");
    assert(outline("402"@) == (3nat, '4', '0', '2'));
    reveal_strlit("403");
    assert(outline("403"@) == (3nat, '4', '0', '3'));
    reveal_strlit("404");
    assert(outline("404"@) == (3nat, '4', '0', '4'));
    reveal_strlit("405");
    assert(outline("405"@) == (3nat, '4', '0', '5'));
    reveal_strlit("406");
    assert(outline("406"@) == (3nat, '4', '0', '6'));
    reveal_strlit("407");
    assert(outline("407"@) == (3nat, '4', '0', '7'));
    reveal_strlit("408");
    assert(outline("408"@) == (3nat, '4', '0', '8'));
    reveal_strlit("409");
    assert(outline("409"@) == (3nat, '4', '0', '9'));
    reveal_strlit("411");
    assert(outline("411"@) == (3nat, '4', '1', '1'));
    reveal_strlit("412");
    assert(outline("412"@) == (3nat, '4', '1', '2'));
    reveal_strlit("413");
    assert(outline("413"@) == (3nat, '4', '1', '3'));
    reveal_strlit("414");
    assert(outline("414"@) == (3nat, '4', '1', '4'));
    reveal_strlit("415");
    assert(outline("415"@) == (3nat, '4', '1', '5'));
    reveal_strlit("421");
    assert(outline("421"@) == (3nat, '4', '2', '1'));
    reveal_strlit("422");
    assert(outline("422"@) == (3nat, '4', '2', '2'));
    reveal_strlit("423");
    assert(outline("423"@) == (3nat, '4', '2', '3'));
    reveal_strlit("424");
    assert(outline("424"@) == (3nat, '4', '2', '4'));
    reveal_strlit("431");
    assert(outline("431"@) == (3nat, '4', '3', '1'));
    reveal_strlit("432");
    assert(outline("432"@) == (3nat, '4', '3', '2'));
    reveal_strlit("433");
    assert(outline("433"@) == (3nat, '4', '3', '3'));
    reveal_strlit("436");
    assert(outline("436"@) == (3nat, '4', '3', '6'));
    reveal_strlit("437");
    assert(outline("437"@) == (3nat, '4', '3', '7'));
    reveal_strlit("441");
    assert(outline("441"@) == (3nat, '4', '4', '1'));
    reveal_strlit("442");
    assert(outline("442"@) == (3nat, '4', '4', '2'));
    reveal_strlit("443");
    assert(outline("443"@) == (3nat, '4', '4', '3'));
    reveal_strlit("444");
    assert(outline("444"@) == (3nat, '4', '4', '4'));
    reveal_strlit("445");
    assert(outline("445"@) == (3nat, '4', '4', '5'));
    reveal_strlit("446");
    assert(outline("446"@) == (3nat, '4', '4', '6'));
    reveal_strlit("451");
    assert(outline("451"@) == (3nat, '4', '5', '1'));
    reveal_strlit("461");
    assert(outline("461"@) == (3nat, '4', '6', '1'));
    reveal_strlit("462");
    assert(outline("462"@) == (3nat, '4', '6', '2'));
    reveal_strlit("463");
    assert(outline("463"@) == (3nat, '4', '6', '3'));
    reveal_strlit("464");
    assert(outline("464"@) == (3nat, '4', '6', '4'));
    reveal_strlit("465");
    assert(outline("465"@) == (3nat, '4', '6', '5'));
    reveal_strlit("466");
    assert(outline("466"@) == (3nat, '4', '6', '6'));
    reveal_strlit("467");
    assert(outline("467"@) == (3nat, '4', '6', '7'));
    reveal_strlit("471");
    assert(outline("471"@) == (3nat, '4', '7', '1'));
    reveal_strlit("472");
    assert(outline("472"@) == (3nat, '4', '7', '2'));
    reveal_strlit("473");
    assert(outline("473"@) == (3nat, '4', '7', '3'));
    reveal_strlit("474");
    assert(outline("474"@) == (3nat, '4', '7', '4'));
    reveal_strlit("475");
    assert(outline("475"@) == (3nat, '4', '7', '5'));
    reveal_strlit("476");
    assert(outline("476"@) == (3nat, '4', '7', '6'));
    reveal_strlit("477");
    assert(outline("477"@) == (3nat, '4', '7', '7'));
    reveal_strlit("478");
    assert(outline("478"@) == (3nat, '4', '7', '8'));
    reveal_strlit("481");
    assert(outline("481"@) == (3nat, '4', '8', '1'));
    reveal_strlit("482");
    assert(outline("482"@) == (3nat, '4', '8', '2'));
    reveal_strlit("483");
    assert(outline("483"@) == (3nat, '4', '8', '3'));
    reveal_strlit("484");
    assert(outline("484"@) == (3nat, '4', '8', '4'));
    reveal_strlit("485");
    assert(outline("485"@) == (3nat, '4', '8', '5'));
    reveal_strlit("491");
    assert(outline("491"@) == (3nat, '4', '9', '1'));
    reveal_strlit("501");
    assert(outline("501"@) == (3nat, '5', '0', '1'));
    reveal_strlit("502");
    assert(outline("502"@) == (3nat, '5', '0', '2'));
}

/// A token that the table does not know stands for the open tag that holds it.
pub proof fn lemma_unknown_wire(code: Code, token: Seq<char>)
    requires
        known(token) is None,
        code.stands_for(token),
    ensures
        code is Unknown,
        code.wire() == token,
        !code.spec_is_reply(),
        !code.spec_is_error(),
{
}

spec fn is_reply_tag(code: Code) -> bool {
    match code {
        Code::RplWelcome => true,
        Code::RplYourhost => true,
        Code::RplCreated => true,
        Code::RplMyinfo => true,
        Code::RplBounce => true,
        Code::RplTracelink => true,
        Code::RplTraceconnecting => true,
        Code::RplTracehandshake => true,
        Code::RplTraceunknown => true,
        Code::RplTraceoperator => true,
        Code::RplTraceuser => true,
        Code::RplTraceserver => true,
        Code::RplTraceservice => true,
        Code::RplTracenewtype => true,
        Code::RplTraceclass => true,
        Code::RplTracereconnect => true,
        Code::RplStatslinkinfo => true,
        Code::RplStatscommands => true,
        Code::RplEndofstats => true,
        Code::RplUmodeis => true,
        Code::RplServlist => true,
        Code::RplServlistend => true,
        Code::RplStatsuptime => true,
        Code::RplStatsoline => true,
        Code::RplLuserclient => true,
        Code::RplLuserop => true,
        Code::RplLuserunknown => true,
        Code::RplLuserchannels => true,
        Code::RplLuserme => true,
        Code::RplAdminme => true,
        Code::RplAdminloc1 => true,
        Code::RplAdminloc2 => true,
        Code::RplAdminemail => true,
        Code::RplTracelog => true,
        Code::RplTraceend => true,
        Code::RplTryagain => true,
        Code::RplAway => true,
        Code::RplUserhost => true,
        Code::RplIson => true,
        Code::RplUnaway => true,
        Code::RplNowaway => true,
        Code::RplWhoisuser => true,
        Code::RplWhoisserver => true,
        Code::RplWhoisoperator => true,
        Code::RplWhowasuser => true,
        Code::RplEndofwho => true,
        Code::RplWhoisidle => true,
        Code::RplEndofwhois => true,
        Code::RplWhoischannels => true,
        Code::RplListstart => true,
        Code::RplList => true,
        Code::RplListend => true,
        Code::RplChannelmodeis => true,
        Code::RplUniqopis => true,
        Code::RplNotopic => true,
        Code::RplTopic => true,
        Code::RplInviting => true,
        Code::RplSummoning => true,
        Code::RplInvitelist => true,
        Code::RplEndofinvitelist => true,
        Code::RplExceptlist => true,
        Code::RplEndofexceptlist => true,
        Code::RplVersion => true,
        Code::RplWhoreply => true,
        Code::RplNamreply => true,
        Code::RplLinks => true,
        Code::RplEndoflinks => true,
        Code::RplEndofnames => true,
        Code::RplBanlist => true,
        Code::RplEndofbanlist => true,
        Code::RplEndofwhowas => true,
        Code::RplInfo => true,
        Code::RplMotd => true,
        Code::RplEndofinfo => true,
        Code::RplMotdstart => true,
        Code::RplEndofmotd => true,
        Code::RplYoureoper => true,
        Code::RplRehashing => true,
        Code::RplYoureservice => true,
        Code::RplTime => true,
        Code::RplUsersstart => true,
        Code::RplUsers => true,
        Code::RplEndofusers => true,
        Code::RplNousers => true,
        _ => false,
    }
}

spec fn is_error_tag(code: Code) -> bool {
    match code {
        Code::ErrNosuchnick => true,
        Code::ErrNosuchserver => true,
        Code::ErrNosuchchannel => true,
        Code::ErrCannotsendtochan => true,
        Code::ErrToomanychannels => true,
        Code::ErrWasnosuchnick => true,
        Code::ErrToomanytargets => true,
        Code::ErrNosuchservice => true,
        Code::ErrNoorigin => true,
        Code::ErrNorecipient => true,
        Code::ErrNotexttosend => true,
        Code::ErrNotoplevel => true,
        Code::ErrWildtoplevel => true,
        Code::ErrBadmask => true,
        Code::ErrUnknowncommand => true,
        Code::ErrNomotd => true,
        Code::ErrNoadmininfo => true,
        Code::ErrFileerror => true,
        Code::ErrNonicknamegiven => true,
        Code::ErrErroneusnickname => true,
        Code::ErrNicknameinuse => true,
        Code::ErrNickcollision => true,
        Code::ErrUnavailresource => true,
        Code::ErrUsernotinchannel => true,
        Code::ErrNotonchannel => true,
        Code::ErrUseronchannel => true,
        Code::ErrNologin => true,
        Code::ErrSummondisabled => true,
        Code::ErrUsersdisabled => true,
        Code::ErrNotregistered => true,
        Code::ErrNeedmoreparams => true,
        Code::ErrAlreadyregistred => true,
        Code::ErrNopermforhost => true,
        Code::ErrPasswdmismatch => true,
        Code::ErrYourebannedcreep => true,
        Code::ErrYouwillbebanned => true,
        Code::ErrKeyset => true,
        Code::ErrChannelisfull => true,
        Code::ErrUnknownmode => true,
        Code::ErrInviteonlychan => true,
        Code::ErrBannedfromchan => true,
        Code::ErrBadchannelkey => true,
        Code::ErrBadchanmask => true,
        Code::ErrNochanmodes => true,
        Code::ErrBanlistfull => true,
        Code::ErrNoprivileges => true,
        Code::ErrChanoprivsneeded => true,
        Code::ErrCantkillserver => true,
        Code::ErrRestricted => true,
        Code::ErrUniqopprivsneeded => true,
        Code::ErrNooperhost => true,
        Code::ErrUmodeunknownflag => true,
        Code::ErrUsersdontmatch => true,
        _ => false,
    }
}

} // verus!
