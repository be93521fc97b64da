use efuse::{AlreadyZappedError, AtomicFuse, Fuse};

#[test]
fn test_defaults() {
    {
        let fuse = Fuse::default();
        assert_eq!(fuse.initial_state(), false);
        assert_eq!(fuse.as_bool(), false);
        assert_eq!(fuse.is_zapped(), false);
    }

    {
        let afuse = AtomicFuse::default();
        assert_eq!(afuse.initial_state(), false);
        assert_eq!(afuse.as_bool(), false);
        assert_eq!(afuse.is_zapped(), false);
    }
}

#[test]
fn test_zaps() {
    for init in vec![false, true] {
        {
            let mut fuse = Fuse::new(init);
            assert_eq!(fuse.as_bool(), init);
            let new1 = fuse.zap_once().unwrap();
            assert_eq!(new1, !init);
            assert_eq!(fuse.as_bool(), !init);
            assert_eq!(fuse.is_zapped(), true);
            let err = fuse.zap_once().unwrap_err();
            assert_eq!(err, AlreadyZappedError);
            assert_eq!(fuse.as_bool(), !init);
            let new2 = fuse.zap();
            assert_eq!(fuse.as_bool(), !init);
            assert_eq!(new2, !init);
        }

        {
            let afuse = AtomicFuse::new(init);
            assert_eq!(afuse.as_bool(), init);
            let new1 = afuse.zap_once().unwrap();
            assert_eq!(new1, !init);
            assert_eq!(afuse.as_bool(), !init);
            assert_eq!(afuse.is_zapped(), true);
            let err = afuse.zap_once().unwrap_err();
            assert_eq!(err, AlreadyZappedError);
            assert_eq!(afuse.as_bool(), !init);
            let new2 = afuse.zap();
            assert_eq!(afuse.as_bool(), !init);
            assert_eq!(new2, !init);
        }
    }
}

#[test]
fn test_ops() {
    {
        let f1 = Fuse::new(false);
        assert!(!f1);
        let f2 = Fuse::new(true);
        assert!(f2);
        assert!(!!f2 & true);
    }

    {
        let a1 = AtomicFuse::new(false);
        assert!(!a1);
        let a2 = AtomicFuse::new(true);
        assert!(a2.clone());
        assert!(!!a2 & true);
    }

    {
        let f1 = Fuse::from(false);
        let f2 = Fuse::from(true);
        assert!(f1 == f1);
        assert_ne!(f1, f2);
        assert_ne!(bool::from(f1.into()), bool::from(f2.into()));
    }

    {
        let a1 = AtomicFuse::from(false);
        let a2 = AtomicFuse::new(true);
        assert!(a1 == a1);
        assert_ne!(a1, a2);
        assert_ne!(bool::from(a1.into()), bool::from(a2.into()));
    }
}
