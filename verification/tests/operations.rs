use pixi_pfx::cli::{AccessMode, ApiKeyCommand, AuthCommand, ChannelCommand, ChannelOrderField, NoticeLevel, SortDirection};
use pixi_pfx::commands::auth::{auth_operation, auth_result_path};
use pixi_pfx::commands::channel::{channel_access_mode, channel_operation, channel_result_path, notice_level};
use pixi_pfx::commands::package::{batch_delete_operation, package_result_path};
use pixi_pfx::queries::auth::AuthOperation;
use pixi_pfx::queries::channel::{ChannelNoticeLevel, ChannelOperation};
use pixi_pfx::queries::common::{ChannelAccessMode, ChannelOrderByFieldField, DateTime, OrderDirection};

fn list(search: Option<&str>, order_by: Option<ChannelOrderField>, owner: Option<&str>, public: bool) -> ChannelCommand {
    ChannelCommand::List {
        owner: owner.map(|s| s.to_string()),
        public,
        limit: 10,
        page: 0,
        order_by,
        direction: SortDirection::Desc,
        search: search.map(|s| s.to_string()),
    }
}

#[test]
fn access_modes_and_levels_map_one_to_one() {
    assert_eq!(channel_access_mode(AccessMode::All), ChannelAccessMode::All);
    assert_eq!(channel_access_mode(AccessMode::Read), ChannelAccessMode::Read);
    assert_eq!(channel_access_mode(AccessMode::ReadWrite), ChannelAccessMode::ReadWrite);
    assert_eq!(channel_access_mode(AccessMode::ReadWriteDelete), ChannelAccessMode::ReadWriteDelete);
    assert_eq!(notice_level(NoticeLevel::Info), ChannelNoticeLevel::Info);
    assert_eq!(notice_level(NoticeLevel::Warning), ChannelNoticeLevel::Warning);
    assert_eq!(notice_level(NoticeLevel::Critical), ChannelNoticeLevel::Critical);
}

#[test]
fn channel_search_orders_by_similarity() {
    match channel_operation(&list(Some("conda"), Some(ChannelOrderField::Size), None, false)) {
        ChannelOperation::ChannelListQuery(v) => {
            assert!(v.filters.is_none());
            let order = v.order_by.unwrap();
            assert!(order.by_field.is_none());
            let sim = order.by_similarity.unwrap();
            assert_eq!(sim.matches, "conda");
            assert_eq!(sim.direction, OrderDirection::Desc);
            assert_eq!(v.limit, Some(10));
            assert_eq!(v.page, Some(0));
        }
        other => panic!("unexpected {:?}", other),
    }
}

#[test]
fn channel_list_filters_by_owner_and_public() {
    match channel_operation(&list(None, Some(ChannelOrderField::Size), Some("myuser"), true)) {
        ChannelOperation::ChannelListQuery(v) => {
            let f = v.filters.unwrap();
            assert_eq!(f.owner.unwrap().eq, Some("myuser".to_string()));
            assert_eq!(f.is_public, Some(true));
            assert!(f.name.is_none());
            let field = v.order_by.unwrap().by_field.unwrap();
            assert_eq!(field.field, ChannelOrderByFieldField::Size);
            assert_eq!(field.direction, OrderDirection::Desc);
        }
        other => panic!("unexpected {:?}", other),
    }
    match channel_operation(&list(None, None, None, false)) {
        ChannelOperation::ChannelListQuery(v) => {
            assert!(v.filters.is_none());
            assert!(v.order_by.is_none());
        }
        other => panic!("unexpected {:?}", other),
    }
}

#[test]
fn notice_variables() {
    let c = ChannelCommand::AddNotice {
        channel: "my-channel".to_string(),
        id: "maintenance".to_string(),
        message: "Maintenance starts at 20:00 UTC".to_string(),
        level: NoticeLevel::Warning,
        expires_at: Some("2026-08-20T22:00:00Z".to_string()),
    };
    match channel_operation(&c) {
        ChannelOperation::CreateChannelNoticeMutation(v) => {
            assert_eq!(v.channel_name, "my-channel");
            assert_eq!(v.id, "maintenance");
            assert_eq!(v.level, ChannelNoticeLevel::Warning);
            assert_eq!(v.expires_at, Some(DateTime("2026-08-20T22:00:00Z".to_string())));
        }
        other => panic!("unexpected {:?}", other),
    }
}

#[test]
fn scoped_api_key_variables() {
    let c = AuthCommand::ApiKey {
        command: ApiKeyCommand::Create {
            name: "upload".to_string(),
            description: None,
            expires_at: None,
            access_mode: Some(AccessMode::ReadWrite),
            channel: Some("releases".to_string()),
        },
    };
    match auth_operation(&c) {
        AuthOperation::CreateApiKeyMutation(v) => {
            assert_eq!(v.name, "upload");
            assert_eq!(v.access_mode, Some(ChannelAccessMode::ReadWrite));
            assert_eq!(v.channel_name, Some("releases".to_string()));
            assert!(v.expires_at.is_none());
        }
        other => panic!("unexpected {:?}", other),
    }
    assert!(matches!(auth_operation(&AuthCommand::Whoami), AuthOperation::ViewerQuery));
}

#[test]
fn results_lie_where_the_original_reads_them() {
    let create = ChannelCommand::Create {
        name: "c".to_string(),
        description: None,
        public: false,
        logo: None,
        relation_base: None,
        relation_overrides: None,
        allow_v3_uploads: None,
    };
    assert_eq!(channel_result_path(&channel_operation(&create)), vec!["createChannel", "channel"]);
    let transfer = ChannelCommand::Transfer { channel: "c".to_string(), new_owner: "o".to_string() };
    assert_eq!(channel_result_path(&channel_operation(&transfer)), vec!["transferChannelOwnership", "channel"]);
    assert_eq!(channel_result_path(&channel_operation(&ChannelCommand::Get { name: "c".to_string() })), vec!["channel"]);
    assert_eq!(channel_result_path(&channel_operation(&list(Some("conda"), None, None, false))), vec!["channels"]);
    assert_eq!(auth_result_path(&auth_operation(&AuthCommand::Whoami)), vec!["viewer"]);
    let revoke = AuthCommand::ApiKey { command: ApiKeyCommand::Revoke { name: "k".to_string() } };
    assert_eq!(auth_result_path(&auth_operation(&revoke)), vec!["revokeApiKey"]);
    assert_eq!(package_result_path(&batch_delete_operation("c", vec![])), vec!["batchDeletePackageVariants"]);
}
